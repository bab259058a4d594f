//! The dispatcher: the single mutation point for every protocol
//! notification.
//!
//! It owns the reconciliation state, the per-tool negotiation slots, the
//! monotonic identifier counter and the ordered queue of normalized
//! events.  Its contracts are stated against the session's *history*: the
//! ghost sequence of every event ever emitted, drained or not.  The
//! well-formedness invariant ties identifiers to that history — the
//! `k`-th `ToolCreated` event carries identifier `k`, the counter equals
//! the number of commits so far, and every event for a tool is preceded
//! by that tool's `ToolCreated` — which is what makes identifiers fresh,
//! strictly increasing and never reused.

use vstd::prelude::*;
use vstd::pervasive::VecAdditionalExecFns;

use crate::events::{event_id, Event, TabletTool, ToolID, ToolType};
use crate::recon::{discovery_step, Discovery, DiscoveryAction, Recon};
use crate::tool::{commits, committed_id, committed_tool, emitted, new_builder, slot_after,
    ToolBuilder, ToolNotification, ToolState};

verus! {

/// The number of `ToolCreated` events in `h`.
pub open spec fn created_count(h: Seq<Event>) -> nat
    decreases h.len(),
{
    if h.len() == 0 {
        0
    } else {
        created_count(h.drop_last()) + (if h.last() is ToolCreated {
            1nat
        } else {
            0nat
        })
    }
}

/// Whether `e` is the creation event of the tool with identifier `id`.
pub open spec fn is_created_with_id(e: Event, id: ToolID) -> bool {
    e matches Event::ToolCreated(t) && t.id == id
}

/// Whether a `ToolCreated` event for `id` stands strictly before position
/// `k` of `h`.
pub open spec fn created_before(h: Seq<Event>, k: int, id: ToolID) -> bool {
    exists|j: int| 0 <= j < k && is_created_with_id(#[trigger] h[j], id)
}

/// Whether `h` contains a `ToolCreated` event for `id` at all.
pub open spec fn created_in(h: Seq<Event>, id: ToolID) -> bool {
    created_before(h, h.len() as int, id)
}

/// A well-formed history: the `k`-th `ToolCreated` event carries
/// identifier `k`, and every other event is preceded by the creation
/// event of the tool it concerns.
pub open spec fn wf_history(h: Seq<Event>) -> bool {
    &&& forall|k: int|
        0 <= k < h.len() ==> ((#[trigger] h[k]) matches Event::ToolCreated(t) ==> t.id
            == created_count(h.take(k)))
    &&& forall|k: int|
        0 <= k < h.len() && !((#[trigger] h[k]) is ToolCreated) ==> created_before(
            h,
            k,
            event_id(h[k]),
        )
}

/// The contract of one drain: `out` is everything queued in `pre`, in
/// emission order; `post` has an empty queue, the drained events moved
/// into the ghost past, and every other component unchanged.
pub open spec fn drain_spec(pre: Dispatcher, post: Dispatcher, out: Seq<Event>) -> bool {
    &&& out == pre.events@
    &&& post.events@ == Seq::<Event>::empty()
    &&& post.past@ == pre.past@ + pre.events@
    &&& post.recon == pre.recon
    &&& post.tools@ == pre.tools@
    &&& post.next_tool_id == pre.next_tool_id
}

/// Appending an event changes `created_count` by one exactly for a
/// `ToolCreated` event, and changes no proper prefix.
proof fn lemma_created_count_push(h: Seq<Event>, e: Event)
    ensures
        created_count(h.push(e)) == created_count(h) + (if e is ToolCreated {
            1nat
        } else {
            0nat
        }),
        forall|k: int|
            0 <= k <= h.len() ==> created_count(#[trigger] h.push(e).take(k)) == created_count(
                h.take(k),
            ),
{
    assert(h.push(e).drop_last() =~= h);
    assert forall|k: int| 0 <= k <= h.len() implies created_count(#[trigger] h.push(e).take(k))
        == created_count(h.take(k)) by {
        assert(h.push(e).take(k) =~= h.take(k));
    }
}

/// A well-formed history stays well formed when the creation event of the
/// next identifier in line is appended.
proof fn lemma_history_push_created(h: Seq<Event>, t: TabletTool)
    requires
        wf_history(h),
        t.id == created_count(h),
    ensures
        wf_history(h.push(Event::ToolCreated(t))),
        created_count(h.push(Event::ToolCreated(t))) == created_count(h) + 1,
        created_in(h.push(Event::ToolCreated(t)), t.id),
        forall|id: ToolID| created_in(h, id) ==> created_in(h.push(Event::ToolCreated(t)), id),
{
    let e = Event::ToolCreated(t);
    let hp = h.push(e);
    lemma_created_count_push(h, e);
    assert(h.take(h.len() as int) =~= h);
    assert(hp.take(h.len() as int) =~= h);
    assert forall|k: int|
        0 <= k < hp.len() implies ((#[trigger] hp[k]) matches Event::ToolCreated(t2) ==> t2.id
        == created_count(hp.take(k))) by {
        if k < h.len() {
            assert(hp[k] == h[k]);
        }
    }
    assert forall|k: int| 0 <= k < hp.len() && !((#[trigger] hp[k]) is ToolCreated) implies
        created_before(hp, k, event_id(hp[k])) by {
        assert(k < h.len());
        assert(hp[k] == h[k]);
        let j = choose|j: int| 0 <= j < k && is_created_with_id(#[trigger] h[j], event_id(h[k]));
        assert(is_created_with_id(hp[j], event_id(hp[k])));
    }
    assert(is_created_with_id(hp[h.len() as int], t.id));
    assert forall|id: ToolID| created_in(h, id) implies created_in(hp, id) by {
        let j = choose|j: int| 0 <= j < h.len() && is_created_with_id(#[trigger] h[j], id);
        assert(is_created_with_id(hp[j], id));
    }
}

/// A well-formed history stays well formed when an event for an already
/// created tool is appended.
proof fn lemma_history_push_other(h: Seq<Event>, e: Event)
    requires
        wf_history(h),
        !(e is ToolCreated),
        created_in(h, event_id(e)),
    ensures
        wf_history(h.push(e)),
        created_count(h.push(e)) == created_count(h),
        forall|id: ToolID| created_in(h, id) ==> created_in(h.push(e), id),
{
    let hp = h.push(e);
    lemma_created_count_push(h, e);
    assert forall|k: int|
        0 <= k < hp.len() implies ((#[trigger] hp[k]) matches Event::ToolCreated(t2) ==> t2.id
        == created_count(hp.take(k))) by {
        if k < h.len() {
            assert(hp[k] == h[k]);
        }
    }
    assert forall|k: int| 0 <= k < hp.len() && !((#[trigger] hp[k]) is ToolCreated) implies
        created_before(hp, k, event_id(hp[k])) by {
        if k < h.len() {
            assert(hp[k] == h[k]);
            let j = choose|j: int|
                0 <= j < k && is_created_with_id(#[trigger] h[j], event_id(h[k]));
            assert(is_created_with_id(hp[j], event_id(hp[k])));
        } else {
            let j = choose|j: int|
                0 <= j < h.len() && is_created_with_id(#[trigger] h[j], event_id(e));
            assert(is_created_with_id(hp[j], event_id(hp[k])));
        }
    }
    assert forall|id: ToolID| created_in(h, id) implies created_in(hp, id) by {
        let j = choose|j: int| 0 <= j < h.len() && is_created_with_id(#[trigger] h[j], id);
        assert(is_created_with_id(hp[j], id));
    }
}

/// Owns all mutable session state; every protocol notification is applied
/// through one of its methods, and every normalized event leaves through
/// [`Dispatcher::drain_events`].
///
/// The fields are public so that specifications can speak of them
/// directly; the embedding must mutate the dispatcher only through its
/// methods, which preserve [`Dispatcher::wf`].
pub struct Dispatcher {
    /// Discovery reconciliation state.
    pub recon: Recon,
    /// One slot per tool the tablet seat has announced, in announcement
    /// order; slots are never removed, a gone tool's slot is `Dead`.
    pub tools: Vec<ToolState>,
    /// The identifier the next commit will assign.
    pub next_tool_id: ToolID,
    /// Events emitted since the last drain, oldest first.
    pub events: Vec<Event>,
    /// Ghost record of the events already drained, oldest first.
    pub past: Ghost<Seq<Event>>,
}

impl Dispatcher {
    /// Every event this session has ever emitted, drained or not, oldest
    /// first.
    pub open spec fn history(self) -> Seq<Event> {
        self.past@ + self.events@
    }

    /// Well-formedness: the history is well formed, the counter equals
    /// the number of commits so far, every committed slot's identifier
    /// was assigned by a commit in the history, and no two slots hold
    /// the same identifier.
    pub open spec fn wf(self) -> bool {
        &&& wf_history(self.history())
        &&& self.next_tool_id == created_count(self.history())
        &&& forall|i: int|
            0 <= i < self.tools@.len() ==> ((#[trigger] self.tools@[i]) matches
                ToolState::Committed(id) ==> id < self.next_tool_id && created_in(
                self.history(),
                id,
            ))
        &&& forall|i: int, j: int|
            0 <= i < j < self.tools@.len() && (#[trigger] self.tools@[i]) is Committed && (
            #[trigger] self.tools@[j]) is Committed ==> committed_id(self.tools@[i])
                != committed_id(self.tools@[j])
    }

    /// A fresh session: nothing discovered, no tools, no events, the
    /// first identifier to assign is 0.
    pub fn new() -> (d: Dispatcher)
        ensures
            d.recon == Recon::Unbound,
            d.tools@ == Seq::<ToolState>::empty(),
            d.next_tool_id == 0,
            d.events@ == Seq::<Event>::empty(),
            d.past@ == Seq::<Event>::empty(),
            d.wf(),
    {
        let d = Dispatcher {
            recon: Recon::Unbound,
            tools: Vec::new(),
            next_tool_id: 0,
            events: Vec::new(),
            past: Ghost(Seq::empty()),
        };
        proof {
            assert(d.history() =~= Seq::<Event>::empty());
        }
        d
    }

    /// Apply one discovery announcement and say what the embedding must
    /// do with the announced handle.  Exactly the reconciliation
    /// transition [`discovery_step`]; nothing else changes.
    pub fn on_discovery(&mut self, d: Discovery) -> (a: DiscoveryAction)
        ensures
            final(self).recon == discovery_step(old(self).recon, d).0,
            a == discovery_step(old(self).recon, d).1,
            final(self).tools@ == old(self).tools@,
            final(self).next_tool_id == old(self).next_tool_id,
            final(self).events@ == old(self).events@,
            final(self).past@ == old(self).past@,
            old(self).wf() ==> final(self).wf(),
    {
        let next: Recon;
        let act: DiscoveryAction;
        match (self.recon, d) {
            (Recon::Unbound, Discovery::SeatDiscovered) => {
                next = Recon::SeatOnly;
                act = DiscoveryAction::StoreSeat;
            },
            (Recon::Unbound, Discovery::ManagerDiscovered) => {
                next = Recon::ManagerOnly;
                act = DiscoveryAction::StoreManager;
            },
            (Recon::SeatOnly, Discovery::SeatDiscovered) => {
                next = Recon::SeatOnly;
                act = DiscoveryAction::IgnoreExtraSeat;
            },
            (Recon::SeatOnly, Discovery::ManagerDiscovered) => {
                next = Recon::Bound;
                act = DiscoveryAction::BindTabletSeat;
            },
            (Recon::ManagerOnly, Discovery::SeatDiscovered) => {
                next = Recon::Bound;
                act = DiscoveryAction::BindTabletSeat;
            },
            (Recon::ManagerOnly, Discovery::ManagerDiscovered) => {
                next = Recon::ManagerOnly;
                act = DiscoveryAction::StoreManager;
            },
            (Recon::Bound, Discovery::SeatDiscovered) => {
                next = Recon::Bound;
                act = DiscoveryAction::IgnoreExtraSeat;
            },
            (Recon::Bound, Discovery::ManagerDiscovered) => {
                next = Recon::Bound;
                act = DiscoveryAction::IgnoreExtraManager;
            },
        }
        self.recon = next;
        act
    }

    /// The tablet seat announced a new tool: open a fresh negotiation
    /// slot for it and return the slot's index, which the embedding
    /// associates with the tool's protocol object.
    pub fn on_tool_added(&mut self) -> (slot: usize)
        ensures
            slot == old(self).tools@.len(),
            final(self).tools@ == old(self).tools@.push(ToolState::Negotiating(new_builder())),
            final(self).recon == old(self).recon,
            final(self).next_tool_id == old(self).next_tool_id,
            final(self).events@ == old(self).events@,
            final(self).past@ == old(self).past@,
            old(self).wf() ==> final(self).wf(),
    {
        let slot = self.tools.len();
        self.tools.push(ToolState::Negotiating(ToolBuilder::new()));
        slot
    }

    /// Append one event to the queue; nothing else changes.
    fn push_event(&mut self, e: Event)
        ensures
            final(self).events@ == old(self).events@.push(e),
            final(self).recon == old(self).recon,
            final(self).tools@ == old(self).tools@,
            final(self).next_tool_id == old(self).next_tool_id,
            final(self).past@ == old(self).past@,
    {
        self.events.push(e);
    }

    /// Apply one notification concerning the tool in `slot`: run the
    /// negotiation state machine and the event translation of
    /// [`slot_after`], [`commits`] and [`emitted`].  A commit assigns the
    /// current counter value as the tool's identifier and advances the
    /// counter; nothing else touches the counter, and a removal never
    /// emits an event.
    #[verifier::rlimit(50)]
    pub fn on_tool_event(&mut self, slot: usize, n: ToolNotification)
        requires
            slot < old(self).tools@.len(),
            old(self).wf(),
            old(self).next_tool_id < u32::MAX,
        ensures
            final(self).wf(),
            final(self).recon == old(self).recon,
            final(self).past@ == old(self).past@,
            final(self).tools@ == old(self).tools@.update(
                slot as int,
                slot_after(old(self).tools@[slot as int], n, old(self).next_tool_id),
            ),
            final(self).next_tool_id as int == old(self).next_tool_id + (if commits(
                old(self).tools@[slot as int],
                n,
            ) {
                1int
            } else {
                0int
            }),
            final(self).events@ == old(self).events@ + emitted(
                old(self).tools@[slot as int],
                n,
                old(self).next_tool_id,
            ),
    {
        let state = self.tools[slot];
        let (new_state, ev): (ToolState, Option<Event>) = match state {
            ToolState::Negotiating(b) => match n {
                ToolNotification::TypeReported(t) => (
                    ToolState::Negotiating(
                        ToolBuilder { tool_type: Some(t), capability: b.capability },
                    ),
                    None,
                ),
                ToolNotification::CapabilityReported(f) => (
                    ToolState::Negotiating(
                        ToolBuilder { tool_type: b.tool_type, capability: b.capability.with_flag(f) },
                    ),
                    None,
                ),
                ToolNotification::NegotiationDone => {
                    let tool_type = match b.tool_type {
                        Some(t) => t,
                        None => ToolType::Unknown,
                    };
                    let tool = TabletTool {
                        id: self.next_tool_id,
                        tool_type,
                        capability: b.capability,
                    };
                    (ToolState::Committed(self.next_tool_id), Some(Event::ToolCreated(tool)))
                },
                ToolNotification::Removed => (ToolState::Dead, None),
                _ => (state, None),
            },
            ToolState::Committed(id) => match n {
                ToolNotification::Removed => (ToolState::Dead, None),
                ToolNotification::ContactDown => (state, Some(Event::Down { id })),
                ToolNotification::ContactUp => (state, Some(Event::Up { id })),
                ToolNotification::Motion { x, y } => (state, Some(Event::Moved { id, x, y })),
                ToolNotification::PressureReported { raw } => (
                    state,
                    Some(Event::Pressure { id, raw }),
                ),
                ToolNotification::DistanceReported { raw } => (
                    state,
                    Some(Event::Distance { id, raw }),
                ),
                ToolNotification::TiltReported { tilt_x, tilt_y } => (
                    state,
                    Some(Event::Tilt { id, tilt_x, tilt_y }),
                ),
                ToolNotification::RotationReported { degrees } => (
                    state,
                    Some(Event::Rotation { id, degrees }),
                ),
                ToolNotification::SliderReported { position } => (
                    state,
                    Some(Event::Slider { id, position }),
                ),
                ToolNotification::WheelReported { degrees, clicks } => (
                    state,
                    Some(Event::Wheel { id, degrees, clicks }),
                ),
                _ => (state, None),
            },
            ToolState::Dead => (state, None),
        };
        let did_commit = match (state, n) {
            (ToolState::Negotiating(_), ToolNotification::NegotiationDone) => true,
            _ => false,
        };
        proof {
            assert(new_state == slot_after(state, n, old(self).next_tool_id));
            assert(did_commit == commits(state, n));
            match ev {
                None => {
                    assert(emitted(state, n, old(self).next_tool_id) =~= Seq::<Event>::empty());
                },
                Some(e) => {
                    assert(emitted(state, n, old(self).next_tool_id) =~= seq![e]);
                },
            }
        }
        self.tools.set(slot, new_state);
        match ev {
            None => {},
            Some(e) => {
                self.push_event(e);
            },
        }
        if did_commit {
            self.next_tool_id = self.next_tool_id + 1;
        }
        proof {
            let pre = *old(self);
            let s0 = pre.tools@[slot as int];
            let h = pre.history();
            let hp = self.history();
            assert(self.tools@ =~= pre.tools@.update(
                slot as int,
                slot_after(s0, n, pre.next_tool_id),
            ));
            match ev {
                None => {
                    assert(hp =~= h);
                    assert(self.events@ =~= pre.events@ + emitted(s0, n, pre.next_tool_id));
                },
                Some(e) => {
                    assert(hp =~= h.push(e));
                    assert(self.events@ =~= pre.events@ + emitted(s0, n, pre.next_tool_id));
                    assert(e == emitted(s0, n, pre.next_tool_id)[0]);
                    if did_commit {
                        match s0 {
                            ToolState::Negotiating(b) => {
                                assert(e == Event::ToolCreated(committed_tool(b, pre.next_tool_id)));
                                lemma_history_push_created(h, committed_tool(b, pre.next_tool_id));
                            },
                            _ => {
                                assert(false);
                            },
                        }
                    } else {
                        match s0 {
                            ToolState::Committed(id) => {
                                assert(created_in(h, id));
                                assert(event_id(e) == id);
                                assert(!(e is ToolCreated));
                                lemma_history_push_other(h, e);
                            },
                            _ => {
                                assert(false);
                            },
                        }
                    }
                },
            }
            assert forall|i: int|
                0 <= i < self.tools@.len() implies ((#[trigger] self.tools@[i]) matches
                ToolState::Committed(tid) ==> tid < self.next_tool_id && created_in(
                hp,
                tid,
            )) by {
                match self.tools@[i] {
                    ToolState::Committed(tid) => {
                        if i == slot as int {
                            if did_commit {
                                assert(tid == pre.next_tool_id);
                            } else {
                                assert(pre.tools@[i] matches ToolState::Committed(t2) && t2 == tid);
                                assert(tid < pre.next_tool_id && created_in(h, tid));
                            }
                        } else {
                            assert(pre.tools@[i] == self.tools@[i]);
                            assert(tid < pre.next_tool_id && created_in(h, tid));
                        }
                        assert(created_in(hp, tid));
                    },
                    _ => {},
                }
            }
            assert forall|i: int, j: int|
                0 <= i < j < self.tools@.len() && (#[trigger] self.tools@[i]) is Committed && (
                #[trigger] self.tools@[j]) is Committed implies committed_id(self.tools@[i])
                != committed_id(self.tools@[j]) by {
                match (self.tools@[i], self.tools@[j]) {
                    (ToolState::Committed(_), ToolState::Committed(_)) => {
                        if i == slot as int {
                            assert(pre.tools@[j] == self.tools@[j]);
                            if !did_commit {
                                assert(pre.tools@[i] == s0);
                            }
                        } else if j == slot as int {
                            assert(pre.tools@[i] == self.tools@[i]);
                            if !did_commit {
                                assert(pre.tools@[j] == s0);
                            }
                        } else {
                            assert(pre.tools@[i] == self.tools@[i]);
                            assert(pre.tools@[j] == self.tools@[j]);
                        }
                    },
                    _ => {},
                }
            }
        }
    }

    /// Atomically hand out everything queued since the last drain, in
    /// emission order, leaving the queue empty.  The history is
    /// unchanged: drained events move into the ghost past.
    pub fn drain_events(&mut self) -> (evs: Vec<Event>)
        ensures
            drain_spec(*old(self), *final(self), evs@),
            final(self).history() == old(self).history(),
            old(self).wf() ==> final(self).wf(),
    {
        let mut out: Vec<Event> = Vec::new();
        core::mem::swap(&mut out, &mut self.events);
        self.past = Ghost(self.past@ + out@);
        proof {
            assert(self.history() =~= old(self).history());
        }
        out
    }
}

} // verus!

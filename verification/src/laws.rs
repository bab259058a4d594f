//! The library's laws: the ordering and uniqueness guarantees of the
//! discovery, negotiation and polling state machines, each proved once
//! and for all over the specification functions that the executable
//! contracts are stated against.

use vstd::prelude::*;

use crate::dispatch::{created_before, created_count, drain_spec, wf_history, Dispatcher};
use crate::events::{apply_flag, event_id, Capability, CapabilityFlag, Event, ToolID};
use crate::recon::{discovery_step, Discovery, DiscoveryAction, Recon};
use crate::tool::{commits, emitted, slot_after, ToolBuilder, ToolNotification, ToolState};

verus! {

/// Law: whichever of the two discovery announcements arrives first, a
/// session that sees each exactly once ends with the tablet seat bound,
/// and exactly one of the two announcements triggers the binding — the
/// second one.
pub proof fn lemma_one_binding_either_order(seat_first: bool)
    ensures
        ({
            let first = if seat_first {
                Discovery::SeatDiscovered
            } else {
                Discovery::ManagerDiscovered
            };
            let second = if seat_first {
                Discovery::ManagerDiscovered
            } else {
                Discovery::SeatDiscovered
            };
            let s1 = discovery_step(Recon::Unbound, first);
            let s2 = discovery_step(s1.0, second);
            &&& s2.0 is Bound
            &&& !(s1.1 is BindTabletSeat)
            &&& s2.1 is BindTabletSeat
        }),
{
}

/// Law: a seat announced while one is already held — whether or not the
/// binding has been made yet — changes nothing; the announcement is
/// answered with the ignore action and the state stays as it was.
pub proof fn lemma_second_seat_ignored(r: Recon)
    requires
        r is SeatOnly || r is Bound,
    ensures
        discovery_step(r, Discovery::SeatDiscovered).0 == r,
        discovery_step(r, Discovery::SeatDiscovered).1 == DiscoveryAction::IgnoreExtraSeat,
{
}

/// Law: the identifier a commit assigns equals the number of tools
/// committed before it in this session — the count of `ToolCreated`
/// events in the history so far.
pub proof fn lemma_fresh_id_counts_commits(d: Dispatcher, slot: int, n: ToolNotification)
    requires
        d.wf(),
        0 <= slot < d.tools@.len(),
        commits(d.tools@[slot], n),
    ensures
        emitted(d.tools@[slot], n, d.next_tool_id).len() == 1,
        emitted(d.tools@[slot], n, d.next_tool_id)[0] is ToolCreated,
        event_id(emitted(d.tools@[slot], n, d.next_tool_id)[0]) == created_count(d.history()),
{
}

/// One step up the prefix: the count over `k + 1` elements is the count
/// over `k`, plus one exactly when the `k`-th element is a creation.
proof fn lemma_created_count_step(h: Seq<Event>, k: int)
    requires
        0 <= k < h.len(),
    ensures
        created_count(h.take(k + 1)) == created_count(h.take(k)) + (if h[k] is ToolCreated {
            1nat
        } else {
            0nat
        }),
{
    assert(h.take(k + 1).drop_last() =~= h.take(k));
    assert(h.take(k + 1).last() == h[k]);
}

/// `created_count` never decreases as the prefix grows.
proof fn lemma_created_count_prefix_le(h: Seq<Event>, i: int, j: int)
    requires
        0 <= i <= j <= h.len(),
    ensures
        created_count(h.take(i)) <= created_count(h.take(j)),
    decreases j - i,
{
    if i < j {
        lemma_created_count_prefix_le(h, i, j - 1);
        lemma_created_count_step(h, j - 1);
    }
}

/// Law: tool identifiers are strictly increasing in creation order and
/// never reused — of any two `ToolCreated` events in a well-formed
/// history, the later one carries the strictly larger identifier, so no
/// identifier is ever assigned twice, whatever removals happened in
/// between.
pub proof fn lemma_tool_ids_strictly_increasing(h: Seq<Event>, k1: int, k2: int)
    requires
        wf_history(h),
        0 <= k1 < k2 < h.len(),
        h[k1] is ToolCreated,
        h[k2] is ToolCreated,
    ensures
        event_id(h[k1]) < event_id(h[k2]),
{
    lemma_created_count_step(h, k1);
    lemma_created_count_prefix_le(h, k1 + 1, k2);
}

/// Law, at the session level: in everything a well-formed dispatcher has
/// ever emitted, later-created tools carry strictly larger identifiers.
pub proof fn lemma_dispatcher_ids_strictly_increasing(d: Dispatcher, k1: int, k2: int)
    requires
        d.wf(),
        0 <= k1 < k2 < d.history().len(),
        d.history()[k1] is ToolCreated,
        d.history()[k2] is ToolCreated,
    ensures
        event_id(d.history()[k1]) < event_id(d.history()[k2]),
{
    lemma_tool_ids_strictly_increasing(d.history(), k1, k2);
}

/// Law: a removal that arrives while a tool is still negotiating emits
/// no event at all, discards the negotiation state, and — since no
/// identifier had been assigned yet — does not consume an identifier.
pub proof fn lemma_removal_while_negotiating(b: ToolBuilder, next_id: ToolID)
    ensures
        slot_after(ToolState::Negotiating(b), ToolNotification::Removed, next_id) is Dead,
        emitted(ToolState::Negotiating(b), ToolNotification::Removed, next_id)
            == Seq::<Event>::empty(),
        !commits(ToolState::Negotiating(b), ToolNotification::Removed),
{
}

/// Law: of two consecutive drains with nothing dispatched in between,
/// the second returns the empty sequence.
pub proof fn lemma_second_drain_empty(
    d0: Dispatcher,
    d1: Dispatcher,
    first: Seq<Event>,
    d2: Dispatcher,
    second: Seq<Event>,
)
    requires
        drain_spec(d0, d1, first),
        drain_spec(d1, d2, second),
    ensures
        second == Seq::<Event>::empty(),
{
}

/// Law: capability flags are set-once-true — applying any further flag
/// never clears one that is already granted.
pub proof fn lemma_capability_never_cleared(c: Capability, f: CapabilityFlag)
    ensures
        c.tilt ==> apply_flag(c, f).tilt,
        c.pressure ==> apply_flag(c, f).pressure,
        c.distance ==> apply_flag(c, f).distance,
        c.rotation ==> apply_flag(c, f).rotation,
        c.slider ==> apply_flag(c, f).slider,
        c.wheel ==> apply_flag(c, f).wheel,
{
}

/// Law: a `ToolCreated` event always precedes any other event bearing
/// its identifier — in a well-formed history, every non-creation event
/// is preceded by the creation of the tool it concerns.
pub proof fn lemma_creation_precedes_use(h: Seq<Event>, k: int)
    requires
        wf_history(h),
        0 <= k < h.len(),
        !(h[k] is ToolCreated),
    ensures
        created_before(h, k, event_id(h[k])),
{
}

} // verus!

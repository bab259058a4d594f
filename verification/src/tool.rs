//! Per-tool negotiation and event translation.
//!
//! Each tool announced by the tablet seat goes through
//! `Negotiating -> { Committed | Dead }`: notifications accumulate a type
//! and a capability set in a builder until a completion signal commits the
//! tool under a fresh identifier, or a removal signal discards it
//! silently.  Once committed, motion and property notifications translate
//! one-for-one into output events carrying that identifier; a later
//! removal tears the association down without emitting anything and
//! without freeing the identifier for reuse.

use vstd::prelude::*;

use crate::events::{apply_flag, no_capability, Capability, CapabilityFlag, Event, TabletTool,
    ToolID, ToolType};

verus! {

/// The in-progress state of a tool that was announced but has not yet
/// completed negotiation: the type reported so far (if any) and the
/// capabilities accumulated so far.
#[derive(Copy, Clone, Debug, PartialEq)]
pub struct ToolBuilder {
    pub tool_type: Option<ToolType>,
    pub capability: Capability,
}

/// A fresh builder: no type reported, no capability granted.
pub open spec fn new_builder() -> ToolBuilder {
    ToolBuilder { tool_type: None, capability: no_capability() }
}

impl ToolBuilder {
    /// The builder a newly announced tool starts from.
    pub fn new() -> (r: ToolBuilder)
        ensures
            r == new_builder(),
    {
        ToolBuilder { tool_type: None, capability: Capability::none() }
    }
}

/// Where one announced tool stands in its lifecycle.
#[derive(Copy, Clone, Debug, PartialEq)]
pub enum ToolState {
    /// Announced; accumulating type and capability notifications.
    Negotiating(ToolBuilder),
    /// Negotiation completed; subsequent notifications for this tool are
    /// translated into events carrying this identifier.
    Committed(ToolID),
    /// Removed, either before commit (discarded silently) or after
    /// (association torn down).  Every further notification is ignored.
    Dead,
}

/// One protocol notification concerning a single tool, stripped to the
/// plain values the state machine reads.  Units are as in
/// [`crate::events::Event`]: fixed-point with 256 units per logical unit
/// for coordinates and angles, raw 16-bit readings for pressure and
/// distance.
#[derive(Copy, Clone, Debug, PartialEq)]
pub enum ToolNotification {
    /// The tool's type; if sent more than once, the last report wins.
    TypeReported(ToolType),
    /// One capability flag the tool declares.
    CapabilityReported(CapabilityFlag),
    /// Negotiation is complete: commit the tool.
    NegotiationDone,
    /// The tool is gone.
    Removed,
    /// The tool touched the surface.
    ContactDown,
    /// The tool left the surface.
    ContactUp,
    Motion { x: i64, y: i64 },
    PressureReported { raw: u16 },
    DistanceReported { raw: u16 },
    TiltReported { tilt_x: i64, tilt_y: i64 },
    RotationReported { degrees: i64 },
    SliderReported { position: i32 },
    WheelReported { degrees: i64, clicks: i32 },
    /// Any notification this library does not know; ignored for forward
    /// compatibility.
    Unrecognized,
}

/// The identifier a committed slot holds; meaningful only on
/// `Committed`.
pub open spec fn committed_id(s: ToolState) -> ToolID
    recommends
        s is Committed,
{
    match s {
        ToolState::Committed(id) => id,
        _ => 0,
    }
}

/// The commit step's tool value: the identifier just assigned, the
/// reported type — or the documented `Unknown` sentinel when negotiation
/// completed without a type report — and the accumulated capabilities.
pub open spec fn committed_tool(b: ToolBuilder, id: ToolID) -> TabletTool {
    TabletTool {
        id,
        tool_type: match b.tool_type {
            Some(t) => t,
            None => ToolType::Unknown,
        },
        capability: b.capability,
    }
}

/// The tool's state after one notification, given that `next_id` is the
/// identifier a commit would assign.
pub open spec fn slot_after(s: ToolState, n: ToolNotification, next_id: ToolID) -> ToolState {
    match s {
        ToolState::Negotiating(b) => match n {
            ToolNotification::TypeReported(t) => ToolState::Negotiating(
                ToolBuilder { tool_type: Some(t), capability: b.capability },
            ),
            ToolNotification::CapabilityReported(f) => ToolState::Negotiating(
                ToolBuilder { tool_type: b.tool_type, capability: apply_flag(b.capability, f) },
            ),
            ToolNotification::NegotiationDone => ToolState::Committed(next_id),
            ToolNotification::Removed => ToolState::Dead,
            _ => s,
        },
        ToolState::Committed(_) => match n {
            ToolNotification::Removed => ToolState::Dead,
            _ => s,
        },
        ToolState::Dead => ToolState::Dead,
    }
}

/// Whether this notification, in this state, commits the tool (and so
/// consumes an identifier).
pub open spec fn commits(s: ToolState, n: ToolNotification) -> bool {
    s is Negotiating && n is NegotiationDone
}

/// The events this notification appends, in this state: one `ToolCreated`
/// on commit; one translated event per motion or property notification on
/// a committed tool; nothing otherwise — in particular, nothing for a
/// removal, nothing while still negotiating, and nothing after death.
pub open spec fn emitted(s: ToolState, n: ToolNotification, next_id: ToolID) -> Seq<Event> {
    match s {
        ToolState::Negotiating(b) => {
            if n is NegotiationDone {
                seq![Event::ToolCreated(committed_tool(b, next_id))]
            } else {
                Seq::empty()
            }
        },
        ToolState::Committed(id) => match n {
            ToolNotification::ContactDown => seq![Event::Down { id }],
            ToolNotification::ContactUp => seq![Event::Up { id }],
            ToolNotification::Motion { x, y } => seq![Event::Moved { id, x, y }],
            ToolNotification::PressureReported { raw } => seq![Event::Pressure { id, raw }],
            ToolNotification::DistanceReported { raw } => seq![Event::Distance { id, raw }],
            ToolNotification::TiltReported { tilt_x, tilt_y } => seq![
                Event::Tilt { id, tilt_x, tilt_y },
            ],
            ToolNotification::RotationReported { degrees } => seq![Event::Rotation { id, degrees }],
            ToolNotification::SliderReported { position } => seq![Event::Slider { id, position }],
            ToolNotification::WheelReported { degrees, clicks } => seq![
                Event::Wheel { id, degrees, clicks },
            ],
            _ => Seq::empty(),
        },
        ToolState::Dead => Seq::empty(),
    }
}

} // verus!

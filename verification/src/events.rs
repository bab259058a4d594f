//! Value types shared by the whole library: tool capabilities, tool
//! identity, and the normalized output events.
//!
//! Coordinates, tilt, rotation and wheel angles are carried as the wire
//! protocol carries them: signed fixed-point numbers with 256 units per
//! logical unit.  Pressure and distance are carried as their raw 16-bit
//! readings; the normalized fraction `raw / 65535` is a floating-point
//! value and is left to the embedding.

use vstd::prelude::*;

verus! {

/// Identifier of a committed tool: unique per session, assigned in commit
/// order starting at 0, never reused.
pub type ToolID = u32;

/// The kind of physical instrument a tool is, as reported during
/// negotiation.  `Unknown` is the documented sentinel used when a tool's
/// negotiation completes without any type having been reported.
#[derive(Copy, Clone, Debug, PartialEq, Eq, Structural)]
pub enum ToolType {
    Pen,
    Eraser,
    Brush,
    Pencil,
    Airbrush,
    Finger,
    Mouse,
    Lens,
    Unknown,
}

/// One capability flag as carried by a single protocol notification.
/// `Unrecognized` stands for any flag this library does not know; setting
/// it is a no-op, so future protocol additions are ignored rather than
/// rejected.
#[derive(Copy, Clone, Debug, PartialEq, Eq, Structural)]
pub enum CapabilityFlag {
    Tilt,
    Pressure,
    Distance,
    Rotation,
    Slider,
    Wheel,
    Unrecognized,
}

/// The six capabilities a tool can declare.  All start false; negotiation
/// can only set a flag to true, never clear one.
#[derive(Copy, Clone, Debug, PartialEq, Eq, Structural)]
pub struct Capability {
    pub tilt: bool,
    pub pressure: bool,
    pub distance: bool,
    pub rotation: bool,
    pub slider: bool,
    pub wheel: bool,
}

/// The capability set with every flag false.
pub open spec fn no_capability() -> Capability {
    Capability {
        tilt: false,
        pressure: false,
        distance: false,
        rotation: false,
        slider: false,
        wheel: false,
    }
}

/// `c` with the named flag set true; unchanged for `Unrecognized`.
pub open spec fn apply_flag(c: Capability, f: CapabilityFlag) -> Capability {
    match f {
        CapabilityFlag::Tilt => Capability { tilt: true, ..c },
        CapabilityFlag::Pressure => Capability { pressure: true, ..c },
        CapabilityFlag::Distance => Capability { distance: true, ..c },
        CapabilityFlag::Rotation => Capability { rotation: true, ..c },
        CapabilityFlag::Slider => Capability { slider: true, ..c },
        CapabilityFlag::Wheel => Capability { wheel: true, ..c },
        CapabilityFlag::Unrecognized => c,
    }
}

impl Capability {
    /// A capability set with no flag set.
    pub fn none() -> (r: Capability)
        ensures
            r == no_capability(),
    {
        Capability {
            tilt: false,
            pressure: false,
            distance: false,
            rotation: false,
            slider: false,
            wheel: false,
        }
    }

    /// This set with `f` additionally granted; `Unrecognized` flags are
    /// ignored.
    pub fn with_flag(self, f: CapabilityFlag) -> (r: Capability)
        ensures
            r == apply_flag(self, f),
    {
        match f {
            CapabilityFlag::Tilt => Capability { tilt: true, ..self },
            CapabilityFlag::Pressure => Capability { pressure: true, ..self },
            CapabilityFlag::Distance => Capability { distance: true, ..self },
            CapabilityFlag::Rotation => Capability { rotation: true, ..self },
            CapabilityFlag::Slider => Capability { slider: true, ..self },
            CapabilityFlag::Wheel => Capability { wheel: true, ..self },
            CapabilityFlag::Unrecognized => self,
        }
    }
}

impl Default for Capability {
    /// The default capability set has every flag false.
    fn default() -> (r: Capability)
        ensures
            r == no_capability(),
    {
        Capability::none()
    }
}

/// A committed tool: its session-unique identifier, its reported type and
/// the capabilities accumulated during negotiation.  Immutable once
/// constructed.
#[derive(Copy, Clone, Debug)]
pub struct TabletTool {
    pub id: ToolID,
    pub tool_type: ToolType,
    pub capability: Capability,
}

impl PartialEq for TabletTool {
    /// Two tools are the same tool exactly when their identifiers agree;
    /// the other fields do not take part in equality.
    fn eq(&self, other: &Self) -> (r: bool)
    {
        self.id == other.id
    }
}

impl vstd::std_specs::cmp::PartialEqSpecImpl for TabletTool {
    open spec fn obeys_eq_spec() -> bool {
        true
    }

    open spec fn eq_spec(&self, other: &Self) -> bool {
        self.id == other.id
    }
}

/// A normalized output event.  Events are self-contained values: they carry
/// the identifier of the tool they concern and no reference back into the
/// session.
#[derive(Copy, Clone, Debug, PartialEq)]
pub enum Event {
    /// A tool finished negotiation and is ready for use.
    ToolCreated(TabletTool),
    /// The tool touched the surface.
    Down { id: ToolID },
    /// The tool left the surface.
    Up { id: ToolID },
    /// The tool moved; fixed-point coordinates, 256 units per logical unit.
    Moved { id: ToolID, x: i64, y: i64 },
    /// Raw pressure reading in `0..=65535`; normalized value is
    /// `raw / 65535`.
    Pressure { id: ToolID, raw: u16 },
    /// Raw distance reading in `0..=65535`.
    Distance { id: ToolID, raw: u16 },
    /// Tilt angles in fixed-point degrees.
    Tilt { id: ToolID, tilt_x: i64, tilt_y: i64 },
    /// Rotation in fixed-point degrees.
    Rotation { id: ToolID, degrees: i64 },
    /// Slider position in `-65535..=65535`.
    Slider { id: ToolID, position: i32 },
    /// Wheel motion: fixed-point degrees and whole clicks.
    Wheel { id: ToolID, degrees: i64, clicks: i32 },
}

/// The identifier an event carries.
pub open spec fn event_id(e: Event) -> ToolID {
    match e {
        Event::ToolCreated(t) => t.id,
        Event::Down { id } => id,
        Event::Up { id } => id,
        Event::Moved { id, .. } => id,
        Event::Pressure { id, .. } => id,
        Event::Distance { id, .. } => id,
        Event::Tilt { id, .. } => id,
        Event::Rotation { id, .. } => id,
        Event::Slider { id, .. } => id,
        Event::Wheel { id, .. } => id,
    }
}

} // verus!

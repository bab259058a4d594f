//! Scenario tests for the dispatcher: discovery reconciliation, tool
//! negotiation, event translation and the poll cycle.

use wayland_tablet::dispatch::Dispatcher;
use wayland_tablet::events::{Capability, CapabilityFlag, Event, TabletTool, ToolType};
use wayland_tablet::recon::{Discovery, DiscoveryAction, Recon};
use wayland_tablet::tool::{ToolNotification, ToolState};

#[test]
fn seat_then_manager_binds_once() {
    let mut d = Dispatcher::new();
    assert_eq!(d.recon, Recon::Unbound);
    let a1 = d.on_discovery(Discovery::SeatDiscovered);
    assert_eq!(a1, DiscoveryAction::StoreSeat);
    assert_eq!(d.recon, Recon::SeatOnly);
    let a2 = d.on_discovery(Discovery::ManagerDiscovered);
    assert_eq!(a2, DiscoveryAction::BindTabletSeat);
    assert_eq!(d.recon, Recon::Bound);
}

#[test]
fn manager_then_seat_binds_once() {
    let mut d = Dispatcher::new();
    let a1 = d.on_discovery(Discovery::ManagerDiscovered);
    assert_eq!(a1, DiscoveryAction::StoreManager);
    assert_eq!(d.recon, Recon::ManagerOnly);
    let a2 = d.on_discovery(Discovery::SeatDiscovered);
    assert_eq!(a2, DiscoveryAction::BindTabletSeat);
    assert_eq!(d.recon, Recon::Bound);
}

#[test]
fn second_seat_is_ignored() {
    let mut d = Dispatcher::new();
    d.on_discovery(Discovery::SeatDiscovered);
    d.on_discovery(Discovery::ManagerDiscovered);
    let a = d.on_discovery(Discovery::SeatDiscovered);
    assert_eq!(a, DiscoveryAction::IgnoreExtraSeat);
    assert_eq!(d.recon, Recon::Bound);
    assert_eq!(d.drain_events().len(), 0);
}

#[test]
fn second_seat_before_binding_is_ignored() {
    let mut d = Dispatcher::new();
    d.on_discovery(Discovery::SeatDiscovered);
    let a = d.on_discovery(Discovery::SeatDiscovered);
    assert_eq!(a, DiscoveryAction::IgnoreExtraSeat);
    assert_eq!(d.recon, Recon::SeatOnly);
    let a2 = d.on_discovery(Discovery::ManagerDiscovered);
    assert_eq!(a2, DiscoveryAction::BindTabletSeat);
}

#[test]
fn second_manager_after_binding_is_ignored() {
    let mut d = Dispatcher::new();
    d.on_discovery(Discovery::ManagerDiscovered);
    d.on_discovery(Discovery::SeatDiscovered);
    let a = d.on_discovery(Discovery::ManagerDiscovered);
    assert_eq!(a, DiscoveryAction::IgnoreExtraManager);
    assert_eq!(d.recon, Recon::Bound);
}

#[test]
fn negotiation_accumulates_type_and_capabilities() {
    let mut d = Dispatcher::new();
    let slot = d.on_tool_added();
    d.on_tool_event(slot, ToolNotification::TypeReported(ToolType::Pen));
    d.on_tool_event(slot, ToolNotification::CapabilityReported(CapabilityFlag::Pressure));
    d.on_tool_event(slot, ToolNotification::CapabilityReported(CapabilityFlag::Tilt));
    d.on_tool_event(slot, ToolNotification::NegotiationDone);
    let evs = d.drain_events();
    assert_eq!(evs.len(), 1);
    match evs[0] {
        Event::ToolCreated(tool) => {
            assert_eq!(tool.id, 0);
            assert_eq!(tool.tool_type, ToolType::Pen);
            assert!(tool.capability.pressure);
            assert!(tool.capability.tilt);
            assert!(!tool.capability.distance);
            assert!(!tool.capability.rotation);
            assert!(!tool.capability.slider);
            assert!(!tool.capability.wheel);
        }
        _ => panic!("expected a ToolCreated event"),
    }
}

#[test]
fn unrecognized_capability_is_ignored() {
    let mut d = Dispatcher::new();
    let slot = d.on_tool_added();
    d.on_tool_event(slot, ToolNotification::CapabilityReported(CapabilityFlag::Unrecognized));
    d.on_tool_event(slot, ToolNotification::NegotiationDone);
    let evs = d.drain_events();
    match evs[0] {
        Event::ToolCreated(tool) => {
            assert_eq!(tool.capability, Capability::default());
        }
        _ => panic!("expected a ToolCreated event"),
    }
}

#[test]
fn commit_without_type_uses_unknown_sentinel() {
    let mut d = Dispatcher::new();
    let slot = d.on_tool_added();
    d.on_tool_event(slot, ToolNotification::NegotiationDone);
    let evs = d.drain_events();
    assert_eq!(evs.len(), 1);
    match evs[0] {
        Event::ToolCreated(tool) => {
            assert_eq!(tool.tool_type, ToolType::Unknown);
            assert_eq!(tool.id, 0);
        }
        _ => panic!("expected a ToolCreated event"),
    }
}

#[test]
fn last_type_report_wins() {
    let mut d = Dispatcher::new();
    let slot = d.on_tool_added();
    d.on_tool_event(slot, ToolNotification::TypeReported(ToolType::Eraser));
    d.on_tool_event(slot, ToolNotification::TypeReported(ToolType::Brush));
    d.on_tool_event(slot, ToolNotification::NegotiationDone);
    let evs = d.drain_events();
    match evs[0] {
        Event::ToolCreated(tool) => assert_eq!(tool.tool_type, ToolType::Brush),
        _ => panic!("expected a ToolCreated event"),
    }
}

#[test]
fn ids_are_never_reused() {
    let mut d = Dispatcher::new();
    let a = d.on_tool_added();
    d.on_tool_event(a, ToolNotification::NegotiationDone);
    let b = d.on_tool_added();
    d.on_tool_event(b, ToolNotification::NegotiationDone);
    d.on_tool_event(a, ToolNotification::Removed);
    let c = d.on_tool_added();
    d.on_tool_event(c, ToolNotification::NegotiationDone);
    let ids: Vec<u32> = d
        .drain_events()
        .into_iter()
        .map(|e| match e {
            Event::ToolCreated(tool) => tool.id,
            _ => panic!("expected only ToolCreated events"),
        })
        .collect();
    assert_eq!(ids, vec![0, 1, 2]);
    assert_eq!(d.tools[a], ToolState::Dead);
}

#[test]
fn removal_while_negotiating_emits_nothing_and_keeps_counter() {
    let mut d = Dispatcher::new();
    let slot = d.on_tool_added();
    d.on_tool_event(slot, ToolNotification::TypeReported(ToolType::Pen));
    d.on_tool_event(slot, ToolNotification::Removed);
    assert_eq!(d.drain_events().len(), 0);
    assert_eq!(d.next_tool_id, 0);
    let second = d.on_tool_added();
    d.on_tool_event(second, ToolNotification::NegotiationDone);
    let evs = d.drain_events();
    match evs[0] {
        Event::ToolCreated(tool) => assert_eq!(tool.id, 0),
        _ => panic!("expected a ToolCreated event"),
    }
}

#[test]
fn removal_after_commit_emits_nothing_and_silences_tool() {
    let mut d = Dispatcher::new();
    let slot = d.on_tool_added();
    d.on_tool_event(slot, ToolNotification::NegotiationDone);
    d.drain_events();
    d.on_tool_event(slot, ToolNotification::Removed);
    d.on_tool_event(slot, ToolNotification::ContactDown);
    d.on_tool_event(slot, ToolNotification::Motion { x: 256, y: 256 });
    assert_eq!(d.drain_events().len(), 0);
    assert_eq!(d.next_tool_id, 1);
}

#[test]
fn motion_before_commit_emits_nothing() {
    let mut d = Dispatcher::new();
    let slot = d.on_tool_added();
    d.on_tool_event(slot, ToolNotification::ContactDown);
    d.on_tool_event(slot, ToolNotification::Motion { x: 512, y: 512 });
    assert_eq!(d.drain_events().len(), 0);
}

#[test]
fn pressure_raw_values_pass_through_exactly() {
    let mut d = Dispatcher::new();
    let slot = d.on_tool_added();
    d.on_tool_event(slot, ToolNotification::NegotiationDone);
    d.on_tool_event(slot, ToolNotification::PressureReported { raw: 65535 });
    d.on_tool_event(slot, ToolNotification::PressureReported { raw: 0 });
    d.on_tool_event(slot, ToolNotification::PressureReported { raw: 32767 });
    let evs = d.drain_events();
    assert_eq!(evs.len(), 4);
    let raws: Vec<u16> = evs[1..]
        .iter()
        .map(|e| match e {
            Event::Pressure { id: 0, raw } => *raw,
            _ => panic!("expected a Pressure event for tool 0"),
        })
        .collect();
    assert_eq!(raws, vec![65535, 0, 32767]);
    // The normalized fraction raw / 65535 is produced by the embedding;
    // on these raw readings it is exactly 1.0, exactly 0.0 and close to
    // one half.
    assert_eq!(raws[0] as f64 / 65535.0, 1.0);
    assert_eq!(raws[1] as f64 / 65535.0, 0.0);
    assert!((raws[2] as f64 / 65535.0 - 0.4999924).abs() < 1e-6);
}

#[test]
fn two_polls_without_notifications_second_is_empty() {
    let mut d = Dispatcher::new();
    d.on_discovery(Discovery::SeatDiscovered);
    d.on_discovery(Discovery::ManagerDiscovered);
    let slot = d.on_tool_added();
    d.on_tool_event(slot, ToolNotification::NegotiationDone);
    let first = d.drain_events();
    assert_eq!(first.len(), 1);
    let second = d.drain_events();
    assert_eq!(second.len(), 0);
}

#[test]
fn end_to_end_single_poll_order() {
    let mut d = Dispatcher::new();
    d.on_discovery(Discovery::ManagerDiscovered);
    d.on_discovery(Discovery::SeatDiscovered);
    let slot = d.on_tool_added();
    d.on_tool_event(slot, ToolNotification::TypeReported(ToolType::Pen));
    d.on_tool_event(slot, ToolNotification::CapabilityReported(CapabilityFlag::Pressure));
    d.on_tool_event(slot, ToolNotification::NegotiationDone);
    d.on_tool_event(slot, ToolNotification::ContactDown);
    // 10.5 and 20.25 logical units, as 256ths.
    d.on_tool_event(slot, ToolNotification::Motion { x: 2688, y: 5184 });
    d.on_tool_event(slot, ToolNotification::PressureReported { raw: 32767 });
    d.on_tool_event(slot, ToolNotification::ContactUp);
    d.on_tool_event(slot, ToolNotification::Removed);
    let evs = d.drain_events();
    assert_eq!(evs.len(), 5);
    match evs[0] {
        Event::ToolCreated(tool) => {
            assert_eq!(tool.id, 0);
            assert_eq!(tool.tool_type, ToolType::Pen);
            assert!(tool.capability.pressure);
        }
        _ => panic!("expected a ToolCreated event first"),
    }
    assert_eq!(evs[1], Event::Down { id: 0 });
    match evs[2] {
        Event::Moved { id, x, y } => {
            assert_eq!(id, 0);
            assert_eq!(x as f64 / 256.0, 10.5);
            assert_eq!(y as f64 / 256.0, 20.25);
        }
        _ => panic!("expected a Moved event"),
    }
    match evs[3] {
        Event::Pressure { id, raw } => {
            assert_eq!(id, 0);
            assert_eq!(raw, 32767);
            assert!((raw as f64 / 65535.0 - 0.5).abs() < 1e-4);
        }
        _ => panic!("expected a Pressure event"),
    }
    assert_eq!(evs[4], Event::Up { id: 0 });
}

#[test]
fn all_translated_variants_carry_their_values() {
    let mut d = Dispatcher::new();
    let slot = d.on_tool_added();
    d.on_tool_event(slot, ToolNotification::NegotiationDone);
    d.drain_events();
    d.on_tool_event(slot, ToolNotification::DistanceReported { raw: 123 });
    d.on_tool_event(slot, ToolNotification::TiltReported { tilt_x: -640, tilt_y: 1280 });
    d.on_tool_event(slot, ToolNotification::RotationReported { degrees: 23040 });
    d.on_tool_event(slot, ToolNotification::SliderReported { position: -65535 });
    d.on_tool_event(slot, ToolNotification::WheelReported { degrees: 3840, clicks: 2 });
    d.on_tool_event(slot, ToolNotification::Unrecognized);
    let evs = d.drain_events();
    assert_eq!(
        evs,
        vec![
            Event::Distance { id: 0, raw: 123 },
            Event::Tilt { id: 0, tilt_x: -640, tilt_y: 1280 },
            Event::Rotation { id: 0, degrees: 23040 },
            Event::Slider { id: 0, position: -65535 },
            Event::Wheel { id: 0, degrees: 3840, clicks: 2 },
        ]
    );
}

#[test]
fn tool_equality_is_by_id_alone() {
    let a = TabletTool {
        id: 4,
        tool_type: ToolType::Pen,
        capability: Capability::default().with_flag(CapabilityFlag::Wheel),
    };
    let b = TabletTool { id: 4, tool_type: ToolType::Eraser, capability: Capability::default() };
    let c = TabletTool { id: 5, tool_type: ToolType::Pen, capability: a.capability };
    assert_eq!(a, b);
    assert_ne!(a, c);
}

#[test]
fn capability_flags_accumulate_and_never_clear() {
    let c = Capability::default()
        .with_flag(CapabilityFlag::Pressure)
        .with_flag(CapabilityFlag::Tilt)
        .with_flag(CapabilityFlag::Pressure);
    assert!(c.pressure && c.tilt);
    assert!(!c.distance && !c.rotation && !c.slider && !c.wheel);
}

#[test]
fn capability_default_is_all_false() {
    let c = Capability::default();
    assert!(!c.tilt && !c.pressure && !c.distance && !c.rotation && !c.slider && !c.wheel);
    let c2 = c.with_flag(CapabilityFlag::Distance);
    assert!(c2.distance && !c2.pressure);
}

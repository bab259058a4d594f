//! Discovery reconciliation: the seat and the tablet manager are announced
//! asynchronously and in no particular order, and must be combined into
//! exactly one tablet-seat binding per session.
//!
//! The state machine is order-insensitive: whichever announcement arrives
//! first is stored, and the second one triggers the single binding.  A
//! seat announced after one is already held is dropped (the session
//! supports exactly one seat); a manager announced after the binding was
//! made is likewise dropped, since the binding happens exactly once.

use vstd::prelude::*;

verus! {

/// A discovery notification, stripped of the protocol handle it announces;
/// the embedding keeps the handles and acts on the returned
/// [`DiscoveryAction`].
#[derive(Copy, Clone, Debug, PartialEq, Eq, Structural)]
pub enum Discovery {
    SeatDiscovered,
    ManagerDiscovered,
}

/// What the embedding must do with the handle carried by the discovery
/// notification just processed.
#[derive(Copy, Clone, Debug, PartialEq, Eq, Structural)]
pub enum DiscoveryAction {
    /// Keep the seat handle; the manager is not known yet.
    StoreSeat,
    /// Keep the manager handle; the seat is not known yet.
    StoreManager,
    /// Both sides are now known for the first time: create the tablet-seat
    /// binding from the stored handle and the one just announced, and
    /// register its tool handler.
    BindTabletSeat,
    /// A seat is already held: drop this one and emit a diagnostic.
    IgnoreExtraSeat,
    /// The binding was already made: drop this manager.
    IgnoreExtraManager,
}

/// Which of the two discovery announcements have been seen so far, and
/// whether the single tablet-seat binding has been made.  At most one
/// unmatched manager and at most one seat are ever held, which this shape
/// enforces structurally.
#[derive(Copy, Clone, Debug, PartialEq, Eq, Structural)]
pub enum Recon {
    /// Neither announcement has arrived.
    Unbound,
    /// The seat arrived first; waiting for the manager.
    SeatOnly,
    /// The manager arrived first; waiting for the seat.
    ManagerOnly,
    /// Both arrived and the tablet seat was bound.
    Bound,
}

/// The reconciliation transition: next state and required action for one
/// discovery notification.
pub open spec fn discovery_step(r: Recon, d: Discovery) -> (Recon, DiscoveryAction) {
    match (r, d) {
        (Recon::Unbound, Discovery::SeatDiscovered) => (Recon::SeatOnly, DiscoveryAction::StoreSeat),
        (Recon::Unbound, Discovery::ManagerDiscovered) => (
            Recon::ManagerOnly,
            DiscoveryAction::StoreManager,
        ),
        (Recon::SeatOnly, Discovery::SeatDiscovered) => (
            Recon::SeatOnly,
            DiscoveryAction::IgnoreExtraSeat,
        ),
        (Recon::SeatOnly, Discovery::ManagerDiscovered) => (
            Recon::Bound,
            DiscoveryAction::BindTabletSeat,
        ),
        (Recon::ManagerOnly, Discovery::SeatDiscovered) => (
            Recon::Bound,
            DiscoveryAction::BindTabletSeat,
        ),
        (Recon::ManagerOnly, Discovery::ManagerDiscovered) => (
            Recon::ManagerOnly,
            DiscoveryAction::StoreManager,
        ),
        (Recon::Bound, Discovery::SeatDiscovered) => (Recon::Bound, DiscoveryAction::IgnoreExtraSeat),
        (Recon::Bound, Discovery::ManagerDiscovered) => (
            Recon::Bound,
            DiscoveryAction::IgnoreExtraManager,
        ),
    }
}

} // verus!

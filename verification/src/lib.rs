//! A verified core for a tablet-input client of a graphics compositor.
//!
//! The compositor announces an input seat and a tablet manager in either
//! order; once both are known, exactly one tablet seat is bound.  Each tablet
//! tool then negotiates its type and capabilities before it is committed
//! under a fresh, monotonically assigned identifier, after which its motion
//! and property notifications are translated one-for-one into normalized
//! events on an ordered queue.
//!
//! Everything that touches the wire — the connection, the event queue
//! primitive, the callback registration — lives outside this crate; the
//! embedding feeds plain notification values into [`dispatch::Dispatcher`]
//! and drains the normalized events it produces.

pub mod dispatch;
pub mod events;
pub mod laws;
pub mod recon;
pub mod tool;

//! Driver core for SHARP-style memory-in-pixel LCD panels.
//!
//! The library keeps a mirror of every pixel on the panel, tracks which
//! scanlines changed since the last transmission, and serializes the changed
//! rows into the exact byte sequence the panel's controller expects: a
//! command byte carrying the alternating reference-voltage bit, one frame per
//! changed line (bit-reversed line number, bit-reversed pixel payload, filler
//! byte), and a closing filler byte.
//!
//! The library computes transactions and updates its own state; it performs
//! no bus or pin I/O itself. A caller owning the SPI bus and the control
//! lines transmits the returned bytes and reports back which frames were
//! written, so that rows whose transmission failed stay marked as changed.

use vstd::prelude::*;

pub mod bits;
pub mod display;
pub mod encoder;
pub mod laws;
pub mod profile;
pub mod rows;

pub use display::MemoryDisplay;
pub use encoder::FlushPlan;
pub use encoder::RowFrame;
pub use profile::BusMode;
pub use profile::ClockPhase;
pub use profile::ClockPolarity;
pub use profile::PanelProfile;

verus! {

/// The ways a driver operation can refuse to act. Bus and pin failures are
/// reported by the caller's transport layer, not by this library; the only
/// error the core itself raises is a pixel coordinate outside the panel.
#[derive(Clone, Copy, Debug, PartialEq, Eq, Structural)]
pub enum DriverError {
    OutOfBounds,
}

} // verus!

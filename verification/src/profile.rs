//! Per-model panel parameters.
//!
//! Each supported panel model is a plain set of constants: pixel width and
//! height, and the clock polarity and phase the bus must be configured with
//! before any transaction. The driver never branches on the model again; it
//! only reads these values.

use vstd::prelude::*;

verus! {

/// Idle level of the bus clock line.
#[derive(Clone, Copy, Debug, PartialEq, Eq, Structural)]
pub enum ClockPolarity {
    IdleLow,
    IdleHigh,
}

/// Which clock transition the bus samples data on.
#[derive(Clone, Copy, Debug, PartialEq, Eq, Structural)]
pub enum ClockPhase {
    CaptureOnFirstTransition,
    CaptureOnSecondTransition,
}

/// Clock configuration the bus must be put in before talking to the panel.
#[derive(Clone, Copy, Debug, PartialEq, Eq, Structural)]
pub struct BusMode {
    pub polarity: ClockPolarity,
    pub phase: ClockPhase,
}

/// Immutable description of one panel model: its pixel dimensions and the
/// bus clock mode it requires.
#[derive(Clone, Copy, Debug, PartialEq, Eq, Structural)]
pub struct PanelProfile {
    pub width: usize,
    pub height: usize,
    pub bus_mode: BusMode,
}

impl PanelProfile {
    /// A usable profile: both dimensions are positive, the height fits the
    /// protocol's one-byte line numbers (lines are addressed `1..=height`),
    /// and the width is small enough that packing a row into bytes can never
    /// overflow an index computation.
    pub open spec fn wf(self) -> bool {
        &&& 0 < self.width <= 0xFFFF
        &&& 0 < self.height <= 255
    }

    /// How many payload bytes one row occupies on the wire: the width packed
    /// eight pixels to a byte, the last byte padded with don't-care bits if
    /// the width is not a multiple of eight.
    pub open spec fn spec_bytes_per_row(self) -> int {
        (self.width + 7) / 8
    }

    /// Executable counterpart of [`Self::spec_bytes_per_row`].
    pub fn bytes_per_row(&self) -> (n: usize)
        requires
            self.wf(),
        ensures
            n == self.spec_bytes_per_row(),
    {
        (self.width + 7) / 8
    }

    /// The LS011B7DH03 panel: 160 x 68 pixels.
    pub fn ls011b7dh03() -> (p: PanelProfile)
        ensures
            p.wf(),
            p.width == 160,
            p.height == 68,
            p.bus_mode.polarity is IdleLow,
            p.bus_mode.phase is CaptureOnFirstTransition,
    {
        PanelProfile {
            width: 160,
            height: 68,
            bus_mode: BusMode {
                polarity: ClockPolarity::IdleLow,
                phase: ClockPhase::CaptureOnFirstTransition,
            },
        }
    }

    /// The LS012B7DD06 panel: 240 x 240 pixels.
    pub fn ls012b7dd06() -> (p: PanelProfile)
        ensures
            p.wf(),
            p.width == 240,
            p.height == 240,
            p.bus_mode.polarity is IdleLow,
            p.bus_mode.phase is CaptureOnSecondTransition,
    {
        PanelProfile {
            width: 240,
            height: 240,
            bus_mode: BusMode {
                polarity: ClockPolarity::IdleLow,
                phase: ClockPhase::CaptureOnSecondTransition,
            },
        }
    }

    /// The LS013B7DH05 panel: 144 x 168 pixels.
    pub fn ls013b7dh05() -> (p: PanelProfile)
        ensures
            p.wf(),
            p.width == 144,
            p.height == 168,
            p.bus_mode.polarity is IdleLow,
            p.bus_mode.phase is CaptureOnSecondTransition,
    {
        PanelProfile {
            width: 144,
            height: 168,
            bus_mode: BusMode {
                polarity: ClockPolarity::IdleLow,
                phase: ClockPhase::CaptureOnSecondTransition,
            },
        }
    }
}

} // verus!

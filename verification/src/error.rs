//! Why an oscillator cannot be built.

use vstd::prelude::*;

verus! {

/// The reasons for which construction is refused.
#[derive(Clone, Copy, Debug, PartialEq, Eq, Structural)]
pub enum OscillatorError {
    /// The table has fewer entries than a four-point interpolation reads.
    InvalidTable,
    /// The sample rate is zero.
    InvalidSampleRate,
}

} // verus!

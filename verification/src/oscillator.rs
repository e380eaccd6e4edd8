//! The oscillator's fixed part: the table, which holds one period of the
//! waveform, and the rate at which samples are pulled from it.
//!
//! The read position moves with every pull and belongs to the caller. The
//! oscillator answers, for any position, which four samples surround it.

use std::time::Duration;
use vstd::prelude::*;
use crate::error::OscillatorError;
use crate::periodic::{
    lemma_tap_indices_by_steps,
    lemma_tap_indices_in_bounds,
    lemma_wrap_inside,
    periodic,
    step_backward,
    step_forward,
    tap_indices,
    wrap,
};

verus! {

/// The least number of entries a table must have: a four-point interpolation
/// reads four different entries around the read position.
pub const MIN_TABLE_LEN: usize = 4;

/// The number of channels of the stream: the oscillator is a single voice.
pub const CHANNELS: u16 = 1;

/// Why a sample rate and a table of `len` entries cannot make an oscillator,
/// or `None` where they can. A short table is reported before a zero rate.
pub open spec fn construction_error(sample_rate: u32, len: nat) -> Option<OscillatorError> {
    if len < MIN_TABLE_LEN {
        Some(OscillatorError::InvalidTable)
    } else if sample_rate == 0 {
        Some(OscillatorError::InvalidSampleRate)
    } else {
        None
    }
}

/// The four samples around a read position, in table order.
#[derive(Clone, Copy, Debug)]
pub struct Taps<S> {
    /// The sample one entry before the position.
    pub y0: S,
    /// The sample at the position.
    pub y1: S,
    /// The sample one entry after the position.
    pub y2: S,
    /// The sample two entries after the position.
    pub y3: S,
}

/// A table of one waveform period and the rate of the stream read from it.
/// Both are fixed when the oscillator is made.
pub struct WavetableOscillator<S> {
    sample_rate: u32,
    wavetable: Vec<S>,
}

impl<S> WavetableOscillator<S> {
    /// The table, in order.
    pub closed spec fn table(&self) -> Seq<S> {
        self.wavetable@
    }

    /// The number of samples pulled per second.
    pub closed spec fn rate(&self) -> u32 {
        self.sample_rate
    }

    #[verifier::type_invariant]
    spec fn well_formed(&self) -> bool {
        construction_error(self.sample_rate, self.wavetable@.len()) is None
    }
}

impl<S: Copy> WavetableOscillator<S> {
    /// Makes an oscillator from a sample rate and a table, or says why not.
    /// The table is kept as it is given: its values are not looked at.
    pub fn new(sample_rate: u32, wavetable: Vec<S>) -> (made: Result<Self, OscillatorError>)
        ensures
            match made {
                Ok(oscillator) => {
                    &&& construction_error(sample_rate, wavetable@.len()) is None
                    &&& oscillator.table() == wavetable@
                    &&& oscillator.rate() == sample_rate
                },
                Err(error) => construction_error(sample_rate, wavetable@.len()) == Some(error),
            },
    {
        if wavetable.len() < MIN_TABLE_LEN {
            return Err(OscillatorError::InvalidTable);
        }
        if sample_rate == 0 {
            return Err(OscillatorError::InvalidSampleRate);
        }
        Ok(WavetableOscillator { sample_rate, wavetable })
    }

    /// The number of entries of the table.
    pub fn len(&self) -> (len: usize)
        ensures
            len == self.table().len(),
            len >= MIN_TABLE_LEN,
    {
        proof {
            use_type_invariant(self);
        }
        self.wavetable.len()
    }

    /// The table indices read around `position`, which may be any number:
    /// one outside the table stands for the position inside it that lies
    /// whole table lengths away. The indices are the wrapped positions one
    /// before `position`, at it, and one and two after it; they are
    /// consecutive entries of the table taken as a ring, and all lie inside
    /// the table.
    pub fn tap_indices(&self, position: usize) -> (indices: (usize, usize, usize, usize))
        ensures
            (indices.0 as int, indices.1 as int, indices.2 as int, indices.3 as int)
                == tap_indices(position as int, self.table().len() as int),
            indices.1 == wrap(position as int, self.table().len() as int),
            position < self.table().len() ==> indices.1 == position,
            indices.0 == step_backward(indices.1 as int, self.table().len() as int),
            indices.2 == step_forward(indices.1 as int, self.table().len() as int),
            indices.3 == step_forward(indices.2 as int, self.table().len() as int),
            indices.0 < self.table().len(),
            indices.1 < self.table().len(),
            indices.2 < self.table().len(),
            indices.3 < self.table().len(),
    {
        proof {
            use_type_invariant(self);
        }
        let len: usize = self.wavetable.len();
        let last: usize = len - 1;
        let i1: usize = position % len;
        let i0: usize = if i1 == 0 {
            last
        } else {
            i1 - 1
        };
        let i2: usize = if i1 == last {
            0
        } else {
            i1 + 1
        };
        let i3: usize = if i2 == last {
            0
        } else {
            i2 + 1
        };
        proof {
            lemma_tap_indices_by_steps(position as int, len as int);
            lemma_tap_indices_in_bounds(position as int, len as int);
            if position < len {
                lemma_wrap_inside(position as int, len as int);
            }
        }
        (i0, i1, i2, i3)
    }

    /// The four samples around `position` in the endless repetition of the
    /// table: the one before it, its own, and the two after it. At a position
    /// inside the table these are the entry there and its neighbours in the
    /// table taken as a ring.
    pub fn taps(&self, position: usize) -> (taps: Taps<S>)
        ensures
            taps.y0 == periodic(self.table(), position - 1),
            taps.y1 == periodic(self.table(), position as int),
            taps.y2 == periodic(self.table(), position + 1),
            taps.y3 == periodic(self.table(), position + 2),
            position < self.table().len() ==> {
                let len = self.table().len() as int;
                let at = position as int;
                &&& taps.y0 == self.table()[step_backward(at, len)]
                &&& taps.y1 == self.table()[at]
                &&& taps.y2 == self.table()[step_forward(at, len)]
                &&& taps.y3 == self.table()[step_forward(step_forward(at, len), len)]
            },
    {
        let (i0, i1, i2, i3) = self.tap_indices(position);
        Taps {
            y0: self.wavetable[i0],
            y1: self.wavetable[i1],
            y2: self.wavetable[i2],
            y3: self.wavetable[i3],
        }
    }

    /// The number of channels of the stream: always one.
    pub fn channels(&self) -> (channels: u16)
        ensures
            channels == CHANNELS,
    {
        CHANNELS
    }

    /// The number of samples pulled per second, as given at construction.
    pub fn sample_rate(&self) -> (rate: u32)
        ensures
            rate == self.rate(),
            rate > 0,
    {
        proof {
            use_type_invariant(self);
        }
        self.sample_rate
    }

    /// The number of samples until the stream's properties may change: there
    /// is no such boundary.
    pub fn current_frame_len(&self) -> (frame_len: Option<usize>)
        ensures
            frame_len is None,
    {
        None
    }

    /// The length of the stream: it is not known, the stream has no end.
    pub fn total_duration(&self) -> (duration: Option<Duration>)
        ensures
            duration is None,
    {
        None
    }
}

} // verus!

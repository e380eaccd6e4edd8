//! A wavetable oscillator core: one period of a waveform held in a table that
//! is read cyclically, the four table entries that a cubic interpolation needs
//! around any read position, and the stream properties that a playback
//! consumer asks for.
//!
//! The table is generic in its sample type. The library decides where to read
//! and hands the samples out; how they are blended is the caller's arithmetic.

pub mod error;
pub mod periodic;
pub mod oscillator;

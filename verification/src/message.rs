//! The values a control surface sends to the render side.
//!
//! Every real-valued parameter is held as the bit pattern of an IEEE-754
//! binary64 number. The engine stores and forwards these patterns; only the
//! sample kernel supplied by the caller gives them a numeric meaning.

use vstd::prelude::*;

verus! {

/// Bit pattern of the default frequency, 1000 Hz.
pub const DEFAULT_FREQUENCY: u64 = 0x408F_4000_0000_0000;

/// Bit pattern of positive zero, the default amplitude (0 dB) and phase (0 degrees).
pub const ZERO: u64 = 0;

/// The periodic waveform of one channel.
///
/// `Square` carries its duty cycle, the fraction of each period spent at the
/// high level, as a binary64 bit pattern. Two shapes are equal when their
/// variants and bit patterns are.
#[derive(Clone, Copy, Debug, PartialEq, Eq, Structural)]
pub enum WaveShape {
    Sine,
    Triangle,
    Square(u64),
    Sawtooth,
}

impl WaveShape {
    /// The display name of a shape, as a sequence of characters.
    pub open spec fn spec_name(self) -> Seq<char> {
        match self {
            WaveShape::Sine => "Sine"@,
            WaveShape::Triangle => "Triangle"@,
            WaveShape::Square(_) => "Square"@,
            WaveShape::Sawtooth => "Sawtooth"@,
        }
    }

    /// The display name of the shape; the duty cycle of a square wave does not
    /// take part in it.
    pub fn name(&self) -> (r: &'static str)
        ensures
            r@ == self.spec_name(),
    {
        match self {
            WaveShape::Sine => "Sine",
            WaveShape::Triangle => "Triangle",
            WaveShape::Square(_) => "Square",
            WaveShape::Sawtooth => "Sawtooth",
        }
    }
}

impl Default for WaveShape {
    fn default() -> (r: Self)
        ensures
            r == WaveShape::Sine,
    {
        WaveShape::Sine
    }
}

/// The complete oscillator configuration of one channel.
///
/// An update always replaces all four fields.
#[derive(Clone, Copy, Debug, PartialEq, Eq, Structural)]
pub struct ChannelParams {
    pub shape: WaveShape,
    /// Amplitude in decibels, binary64 bits.
    pub amplitude_db: u64,
    /// Frequency in hertz, binary64 bits.
    pub frequency: u64,
    /// Phase offset in degrees, binary64 bits.
    pub phase_degrees: u64,
}

impl ChannelParams {
    /// A sine at 0 dB, 1000 Hz and 0 degrees.
    pub open spec fn spec_default() -> ChannelParams {
        ChannelParams {
            shape: WaveShape::Sine,
            amplitude_db: ZERO,
            frequency: DEFAULT_FREQUENCY,
            phase_degrees: ZERO,
        }
    }
}

impl Default for ChannelParams {
    fn default() -> (r: Self)
        ensures
            r == ChannelParams::spec_default(),
    {
        ChannelParams {
            shape: WaveShape::Sine,
            amplitude_db: ZERO,
            frequency: DEFAULT_FREQUENCY,
            phase_degrees: ZERO,
        }
    }
}

/// A command from the control surface.
#[derive(Clone, Copy, Debug, PartialEq, Eq, Structural)]
pub enum Message {
    /// Configure the channel with the given index.
    SetParams(usize, ChannelParams),
    /// Rewind every channel to its first sample.
    Reset,
}

} // verus!

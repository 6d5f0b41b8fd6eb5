//! The waveforms an operator can be asked to produce.

use vstd::prelude::*;

verus! {

/// Shape of the wave that an oscillator produces.
#[derive(Clone, Copy, Debug, PartialEq, Eq, Structural)]
pub enum WaveType {
    Sine,
    Square,
    Sawtooth,
    Triangle,
}

/// The waveform that a number selects. A number that selects none stands for
/// the sine.
pub open spec fn wave_of_id(id: u8) -> WaveType {
    if id == 1 {
        WaveType::Square
    } else if id == 2 {
        WaveType::Sawtooth
    } else if id == 3 {
        WaveType::Triangle
    } else {
        WaveType::Sine
    }
}

impl WaveType {
    /// Reads the number of a waveform.
    pub fn from_id(id: u8) -> (wave: WaveType)
        ensures
            wave == wave_of_id(id),
    {
        match id {
            1 => WaveType::Square,
            2 => WaveType::Sawtooth,
            3 => WaveType::Triangle,
            _ => WaveType::Sine,
        }
    }
}

} // verus!

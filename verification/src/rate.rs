//! The closed set of output sample rates the facade accepts.
//!
//! A rate is chosen once, when a player is created, and never changes for
//! the life of that player.

use vstd::prelude::*;
use crate::errors::PlayerError;

verus! {

/// The supported output sample rates.
#[derive(Clone, Copy, Debug, PartialEq, Eq, Structural)]
pub enum SampleRate {
    Hz44100,
    Hz48000,
    Hz88200,
    Hz96000,
    Hz192000,
}

impl SampleRate {
    /// The rate in hertz, as the engine interface carries it.
    pub open spec fn spec_hz(self) -> u32 {
        match self {
            SampleRate::Hz44100 => 44100,
            SampleRate::Hz48000 => 48000,
            SampleRate::Hz88200 => 88200,
            SampleRate::Hz96000 => 96000,
            SampleRate::Hz192000 => 192000,
        }
    }

    /// The rate in hertz, as the engine interface carries it.
    pub fn as_hz(&self) -> (r: u32)
        ensures
            r == self.spec_hz(),
    {
        match self {
            SampleRate::Hz44100 => 44100,
            SampleRate::Hz48000 => 48000,
            SampleRate::Hz88200 => 88200,
            SampleRate::Hz96000 => 96000,
            SampleRate::Hz192000 => 192000,
        }
    }

    /// What a raw rate value decodes to: the matching variant for each of
    /// the five supported rates, [`PlayerError::UnknownVariant`] otherwise.
    pub open spec fn spec_from_hz(hz: u32) -> Result<SampleRate, PlayerError> {
        if hz == 44100 {
            Ok(SampleRate::Hz44100)
        } else if hz == 48000 {
            Ok(SampleRate::Hz48000)
        } else if hz == 88200 {
            Ok(SampleRate::Hz88200)
        } else if hz == 96000 {
            Ok(SampleRate::Hz96000)
        } else if hz == 192000 {
            Ok(SampleRate::Hz192000)
        } else {
            Err(PlayerError::UnknownVariant)
        }
    }

    /// Decodes a rate given in hertz. An unsupported value is a typed
    /// error, never a panic.
    pub fn from_hz(hz: u32) -> (r: Result<SampleRate, PlayerError>)
        ensures
            r == Self::spec_from_hz(hz),
    {
        if hz == 44100 {
            Ok(SampleRate::Hz44100)
        } else if hz == 48000 {
            Ok(SampleRate::Hz48000)
        } else if hz == 88200 {
            Ok(SampleRate::Hz88200)
        } else if hz == 96000 {
            Ok(SampleRate::Hz96000)
        } else if hz == 192000 {
            Ok(SampleRate::Hz192000)
        } else {
            Err(PlayerError::UnknownVariant)
        }
    }
}

} // verus!

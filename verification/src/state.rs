//! The typed playback state machine.
//!
//! The engine is the authoritative source of the playback state; the
//! facade re-derives it from the raw status codeword on every query and
//! never caches it. This module decodes that codeword and fixes the legal
//! effect of each transport operation on the state.

use vstd::prelude::*;
use crate::abi::{STATUS_PAUSED, STATUS_PLAYING, STATUS_STOPPED};
use crate::errors::PlayerError;

verus! {

/// The three states the transport can be in.
#[derive(Clone, Copy, Debug, PartialEq, Eq, Structural)]
pub enum PlaybackState {
    Stopped,
    Playing,
    Paused,
}

/// What a status codeword decodes to: one of the three known states, or
/// [`PlayerError::UnknownVariant`] for anything outside the enumeration.
pub open spec fn spec_decode_status(code: u32) -> Result<PlaybackState, PlayerError> {
    if code == STATUS_STOPPED {
        Ok(PlaybackState::Stopped)
    } else if code == STATUS_PLAYING {
        Ok(PlaybackState::Playing)
    } else if code == STATUS_PAUSED {
        Ok(PlaybackState::Paused)
    } else {
        Err(PlayerError::UnknownVariant)
    }
}

impl PlaybackState {
    /// Decodes the engine's raw status codeword. An unrecognized value is
    /// a typed error, never a panic: the caller keeps control of failure
    /// handling even against an engine newer than this crate.
    pub fn from_status(code: u32) -> (r: Result<PlaybackState, PlayerError>)
        ensures
            r == spec_decode_status(code),
    {
        if code == STATUS_STOPPED {
            Ok(PlaybackState::Stopped)
        } else if code == STATUS_PLAYING {
            Ok(PlaybackState::Playing)
        } else if code == STATUS_PAUSED {
            Ok(PlaybackState::Paused)
        } else {
            Err(PlayerError::UnknownVariant)
        }
    }
}

/// The state after `play`: playback runs, whatever held before. Starting
/// from `Playing` this is a no-op.
pub open spec fn after_play(s: PlaybackState) -> PlaybackState {
    PlaybackState::Playing
}

/// The state after `pause`: a playing transport pauses; a stopped or
/// already paused transport is left alone.
pub open spec fn after_pause(s: PlaybackState) -> PlaybackState {
    match s {
        PlaybackState::Playing => PlaybackState::Paused,
        _ => s,
    }
}

/// The state after `stop`: stopped, whatever held before.
pub open spec fn after_stop(s: PlaybackState) -> PlaybackState {
    PlaybackState::Stopped
}

/// `play` always lands in `Playing`, so playing twice is the same as
/// playing once: the second call leaves the state unchanged.
pub proof fn lemma_play_idempotent(s: PlaybackState)
    ensures
        after_play(s) == PlaybackState::Playing,
        after_play(after_play(s)) == after_play(s),
{
}

/// `pause` moves only a playing transport; from `Stopped` or `Paused` it
/// is a no-op, and pausing twice is the same as pausing once.
pub proof fn lemma_pause_no_op_unless_playing(s: PlaybackState)
    ensures
        after_pause(PlaybackState::Playing) == PlaybackState::Paused,
        s != PlaybackState::Playing ==> after_pause(s) == s,
        after_pause(after_pause(s)) == after_pause(s),
{
}

/// `stop` always lands in `Stopped`, from every state.
pub proof fn lemma_stop_from_any(s: PlaybackState)
    ensures
        after_stop(s) == PlaybackState::Stopped,
        after_stop(after_stop(s)) == after_stop(s),
{
}

} // verus!

//! Wire-level constants of the engine's call interface.
//!
//! Every mutating engine entry point reports success or failure through a
//! single result codeword, and the playback status query reports one of
//! three status codewords. The facade never lets these raw values reach a
//! caller: results are mapped to [`crate::PlayerError`] and status words
//! are decoded to a typed playback state.

use vstd::prelude::*;

verus! {

/// Result codeword: the call succeeded.
pub const RESULT_OK: u32 = 0;

/// Result codeword: the call failed. Any value other than [`RESULT_OK`]
/// counts as failure; this is the one the reference engine would use.
pub const RESULT_ERROR: u32 = 1;

/// Status codeword: the transport is stopped.
pub const STATUS_STOPPED: u32 = 0;

/// Status codeword: the transport is playing.
pub const STATUS_PLAYING: u32 = 1;

/// Status codeword: the transport is paused.
pub const STATUS_PAUSED: u32 = 2;

/// Largest number of entries one playlist submission can carry: the entry
/// count travels through the engine interface as a 16-bit value. A longer
/// list is rejected outright rather than silently truncated.
pub const MAX_PLAYLIST_LEN: usize = 65535;

} // verus!

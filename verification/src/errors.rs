//! The closed error taxonomy of the facade.
//!
//! Callers never see a raw engine result code: every failure is one of the
//! kinds below, and [`map_result`] is the single place where a codeword is
//! turned into a typed result.

use vstd::prelude::*;
use vstd::string::StringExecFns;
use crate::abi::RESULT_OK;

verus! {

/// Everything that can go wrong behind the facade.
#[derive(Clone, Copy, Debug, PartialEq, Eq, Structural)]
pub enum PlayerError {
    /// The engine rejected its setup call.
    InitFailed,
    /// The engine rejected its teardown call.
    TerminateFailed,
    /// A supplied or returned path is not representable in the engine's
    /// text encoding, or carries an embedded terminator byte.
    InvalidPath,
    /// The exclusive-access token guarding the engine could not be
    /// acquired. The lock used by this crate is verified never to poison,
    /// so the facade itself never produces this kind; it remains part of
    /// the taxonomy for callers that layer their own locking on top.
    LockResourceFailed,
    /// The engine reported a generic failure with no more specific kind.
    Internal,
    /// The engine reported a status codeword outside the known
    /// enumeration. Surfaced as a typed error, never as a process abort.
    UnknownVariant,
}

impl PlayerError {
    /// The human-readable description of this error kind.
    pub open spec fn spec_message(self) -> Seq<char> {
        match self {
            PlayerError::InitFailed => "failed to initialize player"@,
            PlayerError::TerminateFailed => "failed to close player"@,
            PlayerError::InvalidPath => "invalid path"@,
            PlayerError::LockResourceFailed => "failed to lock player resource"@,
            PlayerError::Internal => "internal error"@,
            PlayerError::UnknownVariant => "unknown engine status"@,
        }
    }

    /// A human-readable description of the error, one fixed line per kind.
    pub fn message(&self) -> (r: String)
        ensures
            r@ == self.spec_message(),
    {
        match self {
            PlayerError::InitFailed => String::from_str("failed to initialize player"),
            PlayerError::TerminateFailed => String::from_str("failed to close player"),
            PlayerError::InvalidPath => String::from_str("invalid path"),
            PlayerError::LockResourceFailed => String::from_str("failed to lock player resource"),
            PlayerError::Internal => String::from_str("internal error"),
            PlayerError::UnknownVariant => String::from_str("unknown engine status"),
        }
    }
}

/// What a result codeword means: success for [`RESULT_OK`], otherwise the
/// failure kind the caller assigned to the operation at hand.
pub open spec fn spec_map_result(code: u32, failure: PlayerError) -> Result<(), PlayerError> {
    if code == RESULT_OK {
        Ok(())
    } else {
        Err(failure)
    }
}

/// Translates an engine result codeword into a typed result. `failure`
/// names the error kind under which this operation's failures surface.
pub fn map_result(code: u32, failure: PlayerError) -> (r: Result<(), PlayerError>)
    ensures
        r == spec_map_result(code, failure),
{
    if code == RESULT_OK {
        Ok(())
    } else {
        Err(failure)
    }
}

} // verus!

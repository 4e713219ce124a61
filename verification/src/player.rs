//! The concurrency facade.
//!
//! The engine tolerates only one in-flight call at a time, from any
//! thread. A [`Player`] therefore keeps its session inside a verified
//! lock and makes every operation — transport, submission and every query
//! alike — take the exclusive write side of that lock for exactly the
//! duration of one session call. The session is owned by the lock: no
//! code can reach the engine without holding the handle, so at most one
//! engine call is in flight per player at any instant, and the handle is
//! released on every exit path, success and failure alike.
//!
//! Acquisition blocks until the token is free; there is no timeout, and
//! no fairness is promised among waiters. A poisoned token cannot arise
//! here: every operation performed while holding the handle is verified
//! free of panics, so [`PlayerError::LockResourceFailed`] is never
//! produced by this facade.

use vstd::prelude::*;
use vstd::rwlock::{RwLock, RwLockPredicate};
use crate::errors::PlayerError;
use crate::playlist::playlist_ok;
use crate::rate::SampleRate;
use crate::session::Session;
use crate::state::PlaybackState;

verus! {

/// The lock's invariant: only a well-formed session may rest in the lock.
struct SessionPred;

impl RwLockPredicate<Session> for SessionPred {
    open spec fn inv(self, s: Session) -> bool {
        s.wf()
    }
}

/// A shareable handle on one serialized playback session. Methods take
/// `&self`: one player may be shared across threads, and the internal
/// lock serializes every engine call.
pub struct Player {
    lock: RwLock<Session, SessionPred>,
}

impl Player {
    /// Creates a player at the given output rate. The fresh player is
    /// stopped, with an empty playlist and no current path. Setup failure
    /// would surface as [`PlayerError::InitFailed`]; the reference
    /// engine's setup always succeeds.
    pub fn new(sample_rate: SampleRate) -> (r: Result<Player, PlayerError>)
        ensures
            r is Ok,
    {
        match Session::new(sample_rate) {
            Ok(session) => Ok(Player { lock: RwLock::new(session, Ghost(SessionPred)) }),
            Err(e) => Err(e),
        }
    }

    /// Replaces the playlist wholesale, all-or-nothing: the call succeeds
    /// exactly when every path is free of embedded terminator bytes and
    /// the list fits the 16-bit entry count; otherwise it fails with
    /// [`PlayerError::InvalidPath`] and the previously active playlist is
    /// untouched. Validation happens while holding the exclusion token,
    /// which is released on the failure path just as on success.
    pub fn set_sources(&self, paths: &Vec<String>) -> (r: Result<(), PlayerError>)
        ensures
            r is Ok <==> playlist_ok(paths.deep_view()),
            r is Err ==> r->Err_0 == PlayerError::InvalidPath,
    {
        let (mut session, handle) = self.lock.acquire_write();
        let r = session.set_sources(paths);
        handle.release_write(session);
        r
    }

    /// Starts or resumes playback; playing while already playing is a
    /// no-op.
    pub fn play(&self) -> (r: Result<(), PlayerError>)
        ensures
            r is Ok,
    {
        let (mut session, handle) = self.lock.acquire_write();
        let r = session.play();
        handle.release_write(session);
        r
    }

    /// Pauses a playing transport; from `Stopped` or `Paused` this is a
    /// no-op.
    pub fn pause(&self) -> (r: Result<(), PlayerError>)
        ensures
            r is Ok,
    {
        let (mut session, handle) = self.lock.acquire_write();
        let r = session.pause();
        handle.release_write(session);
        r
    }

    /// Stops the transport, from any state, and rewinds to the start of
    /// the current entry.
    pub fn stop(&self) -> (r: Result<(), PlayerError>)
        ensures
            r is Ok,
    {
        let (mut session, handle) = self.lock.acquire_write();
        let r = session.stop();
        handle.release_write(session);
        r
    }

    /// Sets the playback position within the current entry, in
    /// milliseconds. The facade forwards the position unclamped; clamping
    /// is the engine's business.
    pub fn seek(&self, position_ms: u64) -> (r: Result<(), PlayerError>)
        ensures
            r is Ok,
    {
        let (mut session, handle) = self.lock.acquire_write();
        let r = session.seek(position_ms);
        handle.release_write(session);
        r
    }

    /// Moves to the entry at `index` and rewinds. An out-of-range index
    /// is an explicit no-op that still reports success.
    pub fn skip_to(&self, index: usize) -> (r: Result<(), PlayerError>)
        ensures
            r is Ok,
    {
        let (mut session, handle) = self.lock.acquire_write();
        let r = session.skip_to(index);
        handle.release_write(session);
        r
    }

    /// Moves one entry back and rewinds, clamping at the first entry.
    pub fn previous(&self) -> (r: Result<(), PlayerError>)
        ensures
            r is Ok,
    {
        let (mut session, handle) = self.lock.acquire_write();
        let r = session.previous();
        handle.release_write(session);
        r
    }

    /// Moves one entry forward and rewinds, clamping at the last entry.
    pub fn next(&self) -> (r: Result<(), PlayerError>)
        ensures
            r is Ok,
    {
        let (mut session, handle) = self.lock.acquire_write();
        let r = session.next();
        handle.release_write(session);
        r
    }

    /// Reads the playback state from the engine, under the same exclusion
    /// discipline as the mutating calls, so no state is ever observed
    /// mid-mutation.
    pub fn playback_state(&self) -> (r: Result<PlaybackState, PlayerError>)
        ensures
            r is Ok,
    {
        let (session, handle) = self.lock.acquire_write();
        let r = session.playback_state();
        handle.release_write(session);
        r
    }

    /// Reads the current entry's path: nothing when the playlist is
    /// empty, otherwise the path submitted for the current entry, copied
    /// out before the token is released.
    pub fn source_path(&self) -> (r: Result<Option<String>, PlayerError>)
        ensures
            r is Ok,
    {
        let (session, handle) = self.lock.acquire_write();
        let r = session.source_path();
        handle.release_write(session);
        r
    }

    /// Reads the current entry's position in the playlist; zero when the
    /// playlist is empty.
    pub fn source_index(&self) -> usize {
        let (session, handle) = self.lock.acquire_write();
        let r = session.source_index();
        handle.release_write(session);
        r
    }

    /// Reads the playlist's size.
    pub fn sources_size(&self) -> usize {
        let (session, handle) = self.lock.acquire_write();
        let r = session.sources_size();
        handle.release_write(session);
        r
    }

    /// Reads the playback position within the current entry, in
    /// milliseconds.
    pub fn source_position(&self) -> u64 {
        let (session, handle) = self.lock.acquire_write();
        let r = session.source_position();
        handle.release_write(session);
        r
    }

    /// Reads the current entry's duration, in milliseconds; the reference
    /// engine reports the unknown-duration marker, zero.
    pub fn source_duration(&self) -> (r: u64)
        ensures
            r == 0,
    {
        let (session, handle) = self.lock.acquire_write();
        let r = session.source_duration();
        handle.release_write(session);
        r
    }

    /// Tears the player down, consuming it: the session inside is closed
    /// exactly once, and the type makes any call after teardown
    /// impossible.
    pub fn close(self) -> (r: Result<(), PlayerError>)
        ensures
            r is Ok,
    {
        let session = self.lock.into_inner();
        session.close()
    }
}

} // verus!

//! One exclusively-owned playback session.
//!
//! A [`Session`] owns an engine outright and presents the typed face of
//! the facade: playlists go in as plain paths and are marshalled
//! all-or-nothing, every result codeword is mapped to a typed error, and
//! every status word is decoded to a typed state before a caller sees it.
//! The contracts here pin the effect of each operation exactly; the
//! concurrency facade wraps a `Session` in a lock and adds nothing else.

use vstd::prelude::*;
use vstd::utf8::{encode_utf8, encode_utf8_decode_utf8, encode_utf8_valid_utf8, valid_utf8};
use crate::engine::Engine;
use crate::errors::{map_result, PlayerError};
use crate::playlist::{encode_playlist, playlist_ok};
use crate::rate::SampleRate;
use crate::state::{after_pause, after_play, after_stop, PlaybackState};
use crate::abi::{STATUS_PAUSED, STATUS_PLAYING};

verus! {

/// Relies on alloc::string::String::from_utf8: it succeeds exactly on
/// bytes that are valid UTF-8, and the string it returns is the one those
/// bytes encode.
#[verifier::external_body]
fn string_from_utf8(bytes: Vec<u8>) -> (r: Option<String>)
    ensures
        r is Some <==> valid_utf8(bytes@),
        r is Some ==> encode_utf8(r->0@) == bytes@,
{
    String::from_utf8(bytes).ok()
}

/// A playback session: an engine plus the playlist, as paths, that was
/// last handed to it.
pub struct Session {
    engine: Engine,
    paths: Ghost<Seq<Seq<char>>>,
}

impl Session {
    /// The paths of the playlist the engine currently owns, in order.
    pub closed spec fn spec_paths(&self) -> Seq<Seq<char>> {
        self.paths@
    }

    /// The playback state the engine's status word decodes to.
    pub closed spec fn spec_state(&self) -> PlaybackState {
        if self.engine.spec_status() == STATUS_PLAYING {
            PlaybackState::Playing
        } else if self.engine.spec_status() == STATUS_PAUSED {
            PlaybackState::Paused
        } else {
            PlaybackState::Stopped
        }
    }

    /// The current entry's position in the playlist.
    pub closed spec fn spec_index(&self) -> int {
        self.engine.spec_index()
    }

    /// The playback position within the current entry, in milliseconds.
    pub closed spec fn spec_position_ms(&self) -> u64 {
        self.engine.spec_position_ms()
    }

    /// The output rate the session was created with, in hertz.
    pub closed spec fn spec_rate_hz(&self) -> u32 {
        self.engine.spec_rate_hz()
    }

    /// A session is well-formed when its engine is and the engine's
    /// entries are, entry by entry, the encodings of the session's paths.
    pub closed spec fn wf(&self) -> bool {
        &&& self.engine.wf()
        &&& self.engine.spec_entries().len() == self.paths@.len()
        &&& forall|i: int|
            0 <= i < self.paths@.len() ==> self.engine.spec_entries()[i] == encode_utf8(
                #[trigger] self.paths@[i],
            )
    }

    /// Creates a session at the given output rate. A fresh session is
    /// stopped, with an empty playlist and no current path. Setup failure
    /// surfaces as [`PlayerError::InitFailed`]; the reference engine's
    /// setup always succeeds.
    pub fn new(sample_rate: SampleRate) -> (r: Result<Session, PlayerError>)
        ensures
            r is Ok,
            r->Ok_0.wf(),
            r->Ok_0.spec_paths().len() == 0,
            r->Ok_0.spec_state() == PlaybackState::Stopped,
            r->Ok_0.spec_index() == 0,
            r->Ok_0.spec_position_ms() == 0,
            r->Ok_0.spec_rate_hz() == sample_rate.spec_hz(),
    {
        let (engine, code) = Engine::new(sample_rate.as_hz());
        match map_result(code, PlayerError::InitFailed) {
            Ok(()) => Ok(Session { engine, paths: Ghost(Seq::empty()) }),
            Err(e) => Err(e),
        }
    }

    /// Replaces the playlist wholesale. All-or-nothing: if any path's
    /// encoding would carry an embedded terminator byte, or the list
    /// outgrows the 16-bit count, the submission fails with
    /// [`PlayerError::InvalidPath`], the engine is never called and the
    /// previously active playlist stays exactly as it was. On success the
    /// engine owns the new list, rewound to its first entry and stopped.
    pub fn set_sources(&mut self, paths: &Vec<String>) -> (r: Result<(), PlayerError>)
        requires
            old(self).wf(),
        ensures
            final(self).wf(),
            r is Ok <==> playlist_ok(paths.deep_view()),
            r is Err ==> r->Err_0 == PlayerError::InvalidPath && *final(self) == *old(self),
            r is Ok ==> final(self).spec_paths() == paths.deep_view() && final(self).spec_index()
                == 0 && final(self).spec_state() == PlaybackState::Stopped && final(self).spec_position_ms() == 0,
            final(self).spec_rate_hz() == old(self).spec_rate_hz(),
    {
        let enc = match encode_playlist(paths) {
            Ok(enc) => enc,
            Err(e) => {
                return Err(e);
            },
        };
        let code = self.engine.set_sources(&enc);
        proof {
            self.paths@ = paths.deep_view();
            assert forall|i: int| 0 <= i < self.paths@.len() implies self.engine.spec_entries()[i]
                == encode_utf8(#[trigger] self.paths@[i]) by {
                assert(enc.payload(i) =~= encode_utf8(paths.deep_view()[i]));
            }
        }
        map_result(code, PlayerError::Internal)
    }

    /// Starts or resumes playback; playing while already playing is a
    /// no-op. The reference engine's transport never fails.
    pub fn play(&mut self) -> (r: Result<(), PlayerError>)
        requires
            old(self).wf(),
        ensures
            final(self).wf(),
            r is Ok,
            final(self).spec_state() == after_play(old(self).spec_state()),
            final(self).spec_paths() == old(self).spec_paths(),
            final(self).spec_index() == old(self).spec_index(),
            final(self).spec_position_ms() == old(self).spec_position_ms(),
            final(self).spec_rate_hz() == old(self).spec_rate_hz(),
    {
        let code = self.engine.play();
        map_result(code, PlayerError::Internal)
    }

    /// Pauses a playing transport; from `Stopped` or `Paused` this is a
    /// no-op and the state stays as it was.
    pub fn pause(&mut self) -> (r: Result<(), PlayerError>)
        requires
            old(self).wf(),
        ensures
            final(self).wf(),
            r is Ok,
            final(self).spec_state() == after_pause(old(self).spec_state()),
            final(self).spec_paths() == old(self).spec_paths(),
            final(self).spec_index() == old(self).spec_index(),
            final(self).spec_position_ms() == old(self).spec_position_ms(),
            final(self).spec_rate_hz() == old(self).spec_rate_hz(),
    {
        let code = self.engine.pause();
        map_result(code, PlayerError::Internal)
    }

    /// Stops the transport, from any state, and rewinds to the start of
    /// the current entry.
    pub fn stop(&mut self) -> (r: Result<(), PlayerError>)
        requires
            old(self).wf(),
        ensures
            final(self).wf(),
            r is Ok,
            final(self).spec_state() == after_stop(old(self).spec_state()),
            final(self).spec_position_ms() == 0,
            final(self).spec_paths() == old(self).spec_paths(),
            final(self).spec_index() == old(self).spec_index(),
            final(self).spec_rate_hz() == old(self).spec_rate_hz(),
    {
        let code = self.engine.stop();
        map_result(code, PlayerError::Internal)
    }

    /// Sets the playback position within the current entry, in
    /// milliseconds. The facade does not clamp; the engine decides, and
    /// the reference engine, which knows no durations, stores the
    /// requested position unchanged.
    pub fn seek(&mut self, position_ms: u64) -> (r: Result<(), PlayerError>)
        requires
            old(self).wf(),
        ensures
            final(self).wf(),
            r is Ok,
            final(self).spec_position_ms() == position_ms,
            final(self).spec_state() == old(self).spec_state(),
            final(self).spec_paths() == old(self).spec_paths(),
            final(self).spec_index() == old(self).spec_index(),
            final(self).spec_rate_hz() == old(self).spec_rate_hz(),
    {
        let code = self.engine.seek(position_ms);
        map_result(code, PlayerError::Internal)
    }

    /// Moves to the entry at `index` and rewinds. An index at or beyond
    /// the playlist's size is a no-op that still reports success: the
    /// facade makes the engine's boundary behaviour explicit rather than
    /// guessing at it.
    pub fn skip_to(&mut self, index: usize) -> (r: Result<(), PlayerError>)
        requires
            old(self).wf(),
        ensures
            final(self).wf(),
            r is Ok,
            index < old(self).spec_paths().len() ==> final(self).spec_index() == index as int
                && final(self).spec_position_ms() == 0,
            index >= old(self).spec_paths().len() ==> final(self).spec_index() == old(self).spec_index() && final(self).spec_position_ms() == old(self).spec_position_ms(),
            final(self).spec_state() == old(self).spec_state(),
            final(self).spec_paths() == old(self).spec_paths(),
            final(self).spec_rate_hz() == old(self).spec_rate_hz(),
    {
        let code = self.engine.skip_to(index);
        map_result(code, PlayerError::Internal)
    }

    /// Moves one entry back and rewinds, clamping at the first entry.
    pub fn previous(&mut self) -> (r: Result<(), PlayerError>)
        requires
            old(self).wf(),
        ensures
            final(self).wf(),
            r is Ok,
            final(self).spec_index() == if old(self).spec_index() > 0 {
                old(self).spec_index() - 1
            } else {
                0
            },
            final(self).spec_position_ms() == 0,
            final(self).spec_state() == old(self).spec_state(),
            final(self).spec_paths() == old(self).spec_paths(),
            final(self).spec_rate_hz() == old(self).spec_rate_hz(),
    {
        let code = self.engine.previous();
        map_result(code, PlayerError::Internal)
    }

    /// Moves one entry forward and rewinds, clamping at the last entry.
    pub fn next(&mut self) -> (r: Result<(), PlayerError>)
        requires
            old(self).wf(),
        ensures
            final(self).wf(),
            r is Ok,
            final(self).spec_index() == if old(self).spec_index() + 1 < old(self).spec_paths().len() {
                old(self).spec_index() + 1
            } else {
                old(self).spec_index()
            },
            final(self).spec_position_ms() == 0,
            final(self).spec_state() == old(self).spec_state(),
            final(self).spec_paths() == old(self).spec_paths(),
            final(self).spec_rate_hz() == old(self).spec_rate_hz(),
    {
        let code = self.engine.next();
        map_result(code, PlayerError::Internal)
    }

    /// Reads the playback state back from the engine and decodes it. A
    /// status word outside the known enumeration would surface as
    /// [`PlayerError::UnknownVariant`]; against a well-formed engine the
    /// decode always succeeds.
    pub fn playback_state(&self) -> (r: Result<PlaybackState, PlayerError>)
        requires
            self.wf(),
        ensures
            r == Ok::<PlaybackState, PlayerError>(self.spec_state()),
    {
        PlaybackState::from_status(self.engine.get_playback_state())
    }

    /// Reads the current entry's path back from the engine: nothing when
    /// the playlist is empty, otherwise exactly the path that was
    /// submitted for the current entry. A result the engine returned in a
    /// broken encoding would surface as [`PlayerError::InvalidPath`]
    /// rather than reach the caller; against a well-formed engine that
    /// cannot happen.
    pub fn source_path(&self) -> (r: Result<Option<String>, PlayerError>)
        requires
            self.wf(),
        ensures
            self.spec_paths().len() == 0 ==> r == Ok::<Option<String>, PlayerError>(None),
            self.spec_paths().len() > 0 ==> r is Ok && r->Ok_0 is Some && r->Ok_0->0@
                == self.spec_paths()[self.spec_index()],
    {
        match self.engine.get_source_path() {
            None => Ok(None),
            Some(bytes) => {
                proof {
                    encode_utf8_valid_utf8(self.spec_paths()[self.spec_index()]);
                }
                match string_from_utf8(bytes) {
                    Some(s) => {
                        proof {
                            encode_utf8_decode_utf8(self.spec_paths()[self.spec_index()]);
                            encode_utf8_decode_utf8(s@);
                        }
                        Ok(Some(s))
                    },
                    None => Err(PlayerError::InvalidPath),
                }
            },
        }
    }

    /// Reads the current entry's position in the playlist back from the
    /// engine. With an empty playlist there is no current entry and the
    /// reported index is zero.
    pub fn source_index(&self) -> (r: usize)
        requires
            self.wf(),
        ensures
            r == self.spec_index(),
    {
        self.engine.get_source_index()
    }

    /// Reads the playlist's size back from the engine.
    pub fn sources_size(&self) -> (r: usize)
        requires
            self.wf(),
        ensures
            r == self.spec_paths().len(),
    {
        self.engine.get_sources_size()
    }

    /// Reads the playback position within the current entry back from the
    /// engine, in milliseconds.
    pub fn source_position(&self) -> (r: u64)
        requires
            self.wf(),
        ensures
            r == self.spec_position_ms(),
    {
        self.engine.get_source_position()
    }

    /// Reads the current entry's duration from the engine, in
    /// milliseconds. The reference engine loads no media, so it reports
    /// the unknown-duration marker, zero.
    pub fn source_duration(&self) -> (r: u64)
        requires
            self.wf(),
        ensures
            r == 0,
    {
        self.engine.get_source_duration()
    }

    /// Tears the session down, consuming it: the engine is released
    /// exactly once, and the type makes use after teardown impossible.
    /// Teardown failure surfaces as [`PlayerError::TerminateFailed`]; the
    /// reference engine's teardown always succeeds.
    pub fn close(self) -> (r: Result<(), PlayerError>)
        requires
            self.wf(),
        ensures
            r is Ok,
    {
        let mut engine = self.engine;
        let code = engine.close();
        map_result(code, PlayerError::TerminateFailed)
    }
}

} // verus!

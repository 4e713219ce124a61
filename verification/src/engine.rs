//! The reference engine.
//!
//! The facade is written against an engine that speaks a narrow wire
//! interface: raw result and status codewords, byte buffers for entry
//! text, plain integers for everything else. This module is a
//! deterministic engine with exactly that interface, so that every layer
//! above it is verified against stated engine behaviour rather than
//! against an opaque black box. It decodes and plays nothing; it keeps the
//! transport state the interface describes:
//!
//! - it owns its own copies of the submitted entries, read from the
//!   marshalled buffers up to each terminator, so the caller is free to
//!   discard those buffers as soon as the call returns;
//! - it loads no media, so every entry's duration is unknown and reported
//!   as zero, and a seek stores the requested position unchanged;
//! - `skip_to` with an out-of-range index is a no-op, and `previous` /
//!   `next` clamp at the playlist's ends.
//!
//! The engine is not safe for concurrent use — every mutating call takes
//! the whole engine exclusively — which is why the facade serializes all
//! access to it.

use vstd::prelude::*;
use crate::abi::{RESULT_OK, STATUS_PAUSED, STATUS_PLAYING, STATUS_STOPPED};
use crate::playlist::EncodedPlaylist;

verus! {

/// The engine's transport state: the playlist it owns, the current entry,
/// the raw status word, and the playback position.
pub struct Engine {
    rate_hz: u32,
    entries: Vec<Vec<u8>>,
    index: usize,
    status: u32,
    position_ms: u64,
}

impl Engine {
    /// The output sample rate the engine was started with, in hertz.
    pub closed spec fn spec_rate_hz(&self) -> u32 {
        self.rate_hz
    }

    /// The entry texts the engine currently owns, in playlist order.
    pub closed spec fn spec_entries(&self) -> Seq<Seq<u8>> {
        self.entries.deep_view()
    }

    /// The current entry's position in the playlist.
    pub closed spec fn spec_index(&self) -> int {
        self.index as int
    }

    /// The raw status codeword the engine would report.
    pub closed spec fn spec_status(&self) -> u32 {
        self.status
    }

    /// The playback position within the current entry, in milliseconds.
    pub closed spec fn spec_position_ms(&self) -> u64 {
        self.position_ms
    }

    /// The engine's own invariant: the status word is one of the three
    /// known codewords, and the current index lies inside the playlist
    /// whenever the playlist is non-empty (and is zero when it is empty).
    pub open spec fn wf(&self) -> bool {
        &&& (self.spec_status() == STATUS_STOPPED || self.spec_status() == STATUS_PLAYING
            || self.spec_status() == STATUS_PAUSED)
        &&& if self.spec_entries().len() == 0 {
            self.spec_index() == 0
        } else {
            0 <= self.spec_index() < self.spec_entries().len()
        }
    }

    /// Starts an engine at the given output rate. The result codeword
    /// reports whether setup succeeded; the reference engine opens no
    /// device, so its setup always does. A fresh engine is stopped, with
    /// an empty playlist.
    pub fn new(rate_hz: u32) -> (r: (Engine, u32))
        ensures
            r.1 == RESULT_OK,
            r.0.wf(),
            r.0.spec_rate_hz() == rate_hz,
            r.0.spec_entries().len() == 0,
            r.0.spec_index() == 0,
            r.0.spec_status() == STATUS_STOPPED,
            r.0.spec_position_ms() == 0,
    {
        let e = Engine {
            rate_hz,
            entries: Vec::new(),
            index: 0,
            status: STATUS_STOPPED,
            position_ms: 0,
        };
        (e, RESULT_OK)
    }

    /// Replaces the playlist wholesale with the marshalled entries: the
    /// engine copies each entry's text up to its terminator, rewinds to
    /// the first entry and stops. It keeps no reference into the caller's
    /// buffers past the call's return.
    pub fn set_sources(&mut self, pl: &EncodedPlaylist) -> (code: u32)
        requires
            old(self).wf(),
            pl.wf(),
        ensures
            code == RESULT_OK,
            final(self).wf(),
            final(self).spec_entries().len() == pl.count as int,
            forall|i: int|
                0 <= i < pl.count as int ==> final(self).spec_entries()[i] == pl.payload(i),
            final(self).spec_index() == 0,
            final(self).spec_status() == STATUS_STOPPED,
            final(self).spec_position_ms() == 0,
            final(self).spec_rate_hz() == old(self).spec_rate_hz(),
    {
        let count = pl.count as usize;
        let mut new_entries: Vec<Vec<u8>> = Vec::new();
        let mut k: usize = 0;
        while k < count
            invariant
                pl.wf(),
                count == pl.count as int,
                k <= count,
                new_entries@.len() == k as int,
                forall|i: int|
                    0 <= i < k as int ==> (#[trigger] new_entries@[i])@ == pl.payload(i),
            decreases count - k,
        {
            let buf = &pl.buffers[k];
            let n = buf.len();
            let mut payload: Vec<u8> = Vec::new();
            let mut j: usize = 0;
            // Read the entry as the wire format defines it: everything up
            // to the terminator byte.
            while buf[j] != 0u8
                invariant
                    pl.wf(),
                    k < pl.count as int,
                    buf == &pl.buffers[k as int],
                    n == buf@.len(),
                    j < n,
                    payload@ == buf@.subrange(0, j as int),
                decreases buf@.len() - j,
            {
                payload.push(buf[j]);
                j += 1;
                assert(j < n) by {
                    assert(buf@[j - 1] != 0u8);
                    assert(buf@[buf@.len() - 1] == 0u8);
                }
            }
            assert(j == buf@.len() - 1) by {
                assert(buf@[j as int] == 0u8);
                assert(forall|m: int| 0 <= m < buf@.len() - 1 ==> buf@[m] != 0u8);
            }
            assert(payload@ == pl.payload(k as int));
            new_entries.push(payload);
            k += 1;
        }
        self.entries = new_entries;
        self.index = 0;
        self.status = STATUS_STOPPED;
        self.position_ms = 0;
        proof {
            assert forall|i: int| 0 <= i < pl.count as int implies self.spec_entries()[i]
                == pl.payload(i) by {
                assert(self.entries.deep_view()[i] == self.entries@[i]@);
            }
        }
        RESULT_OK
    }

    /// Starts or resumes playback; playing while already playing changes
    /// nothing. The reference engine's transport never fails.
    pub fn play(&mut self) -> (code: u32)
        requires
            old(self).wf(),
        ensures
            code == RESULT_OK,
            final(self).wf(),
            final(self).spec_status() == STATUS_PLAYING,
            final(self).spec_entries() == old(self).spec_entries(),
            final(self).spec_index() == old(self).spec_index(),
            final(self).spec_position_ms() == old(self).spec_position_ms(),
            final(self).spec_rate_hz() == old(self).spec_rate_hz(),
    {
        self.status = STATUS_PLAYING;
        RESULT_OK
    }

    /// Pauses a playing transport; a stopped or paused transport is left
    /// alone.
    pub fn pause(&mut self) -> (code: u32)
        requires
            old(self).wf(),
        ensures
            code == RESULT_OK,
            final(self).wf(),
            final(self).spec_status() == if old(self).spec_status() == STATUS_PLAYING {
                STATUS_PAUSED
            } else {
                old(self).spec_status()
            },
            final(self).spec_entries() == old(self).spec_entries(),
            final(self).spec_index() == old(self).spec_index(),
            final(self).spec_position_ms() == old(self).spec_position_ms(),
            final(self).spec_rate_hz() == old(self).spec_rate_hz(),
    {
        if self.status == STATUS_PLAYING {
            self.status = STATUS_PAUSED;
        }
        RESULT_OK
    }

    /// Stops the transport and rewinds to the start of the current entry.
    pub fn stop(&mut self) -> (code: u32)
        requires
            old(self).wf(),
        ensures
            code == RESULT_OK,
            final(self).wf(),
            final(self).spec_status() == STATUS_STOPPED,
            final(self).spec_position_ms() == 0,
            final(self).spec_entries() == old(self).spec_entries(),
            final(self).spec_index() == old(self).spec_index(),
            final(self).spec_rate_hz() == old(self).spec_rate_hz(),
    {
        self.status = STATUS_STOPPED;
        self.position_ms = 0;
        RESULT_OK
    }

    /// Sets the playback position within the current entry. The reference
    /// engine loads no media, so durations are unknown and the requested
    /// position is stored unchanged rather than clamped against one.
    pub fn seek(&mut self, position_ms: u64) -> (code: u32)
        requires
            old(self).wf(),
        ensures
            code == RESULT_OK,
            final(self).wf(),
            final(self).spec_position_ms() == position_ms,
            final(self).spec_status() == old(self).spec_status(),
            final(self).spec_entries() == old(self).spec_entries(),
            final(self).spec_index() == old(self).spec_index(),
            final(self).spec_rate_hz() == old(self).spec_rate_hz(),
    {
        self.position_ms = position_ms;
        RESULT_OK
    }

    /// Moves to the entry at `index` and rewinds. An out-of-range index is
    /// a no-op: the engine stays where it is and still reports success.
    pub fn skip_to(&mut self, index: usize) -> (code: u32)
        requires
            old(self).wf(),
        ensures
            code == RESULT_OK,
            final(self).wf(),
            index < old(self).spec_entries().len() ==> final(self).spec_index() == index as int
                && final(self).spec_position_ms() == 0,
            index >= old(self).spec_entries().len() ==> final(self).spec_index() == old(
                self,
            ).spec_index() && final(self).spec_position_ms() == old(self).spec_position_ms(),
            final(self).spec_status() == old(self).spec_status(),
            final(self).spec_entries() == old(self).spec_entries(),
            final(self).spec_rate_hz() == old(self).spec_rate_hz(),
    {
        if index < self.entries.len() {
            self.index = index;
            self.position_ms = 0;
        }
        RESULT_OK
    }

    /// Moves one entry back and rewinds, clamping at the first entry.
    pub fn previous(&mut self) -> (code: u32)
        requires
            old(self).wf(),
        ensures
            code == RESULT_OK,
            final(self).wf(),
            final(self).spec_index() == if old(self).spec_index() > 0 {
                old(self).spec_index() - 1
            } else {
                0
            },
            final(self).spec_position_ms() == 0,
            final(self).spec_status() == old(self).spec_status(),
            final(self).spec_entries() == old(self).spec_entries(),
            final(self).spec_rate_hz() == old(self).spec_rate_hz(),
    {
        if self.index > 0 {
            self.index = self.index - 1;
        }
        self.position_ms = 0;
        RESULT_OK
    }

    /// Moves one entry forward and rewinds, clamping at the last entry.
    pub fn next(&mut self) -> (code: u32)
        requires
            old(self).wf(),
        ensures
            code == RESULT_OK,
            final(self).wf(),
            final(self).spec_index() == if old(self).spec_index() + 1 < old(
                self,
            ).spec_entries().len() {
                old(self).spec_index() + 1
            } else {
                old(self).spec_index()
            },
            final(self).spec_position_ms() == 0,
            final(self).spec_status() == old(self).spec_status(),
            final(self).spec_entries() == old(self).spec_entries(),
            final(self).spec_rate_hz() == old(self).spec_rate_hz(),
    {
        if self.entries.len() > 0 && self.index < self.entries.len() - 1 {
            self.index = self.index + 1;
        }
        self.position_ms = 0;
        RESULT_OK
    }

    /// Reports the raw playback status codeword.
    pub fn get_playback_state(&self) -> (code: u32)
        ensures
            code == self.spec_status(),
    {
        self.status
    }

    /// Reports the current entry's position in the playlist.
    pub fn get_source_index(&self) -> (r: usize)
        ensures
            r == self.spec_index(),
    {
        self.index
    }

    /// Reports how many entries the engine owns.
    pub fn get_sources_size(&self) -> (r: usize)
        ensures
            r == self.spec_entries().len(),
    {
        self.entries.len()
    }

    /// Hands out a copy of the current entry's text, or nothing when the
    /// playlist is empty — the wire interface's null result. The copy is
    /// the caller's; nothing points back into the engine.
    pub fn get_source_path(&self) -> (r: Option<Vec<u8>>)
        requires
            self.wf(),
        ensures
            self.spec_entries().len() == 0 ==> r is None,
            self.spec_entries().len() > 0 ==> r is Some && r->0@ == self.spec_entries()[self.spec_index()],
    {
        if self.entries.len() == 0 {
            return None;
        }
        let src = &self.entries[self.index];
        let mut out: Vec<u8> = Vec::new();
        let mut j: usize = 0;
        while j < src.len()
            invariant
                j <= src@.len(),
                out@ == src@.subrange(0, j as int),
            decreases src@.len() - j,
        {
            out.push(src[j]);
            j += 1;
        }
        assert(out@ == src@);
        assert(src@ == self.spec_entries()[self.spec_index()]) by {
            assert(self.entries.deep_view()[self.spec_index()] == self.entries@[self.spec_index()]@);
        }
        Some(out)
    }

    /// Reports the playback position within the current entry, in
    /// milliseconds.
    pub fn get_source_position(&self) -> (r: u64)
        ensures
            r == self.spec_position_ms(),
    {
        self.position_ms
    }

    /// Reports the current entry's duration in milliseconds. The
    /// reference engine loads no media, so the duration is always the
    /// unknown marker, zero.
    pub fn get_source_duration(&self) -> (r: u64)
        ensures
            r == 0,
    {
        0
    }

    /// Tears the engine down: playback stops and the engine releases the
    /// playlist it owns. The result codeword reports whether teardown
    /// succeeded; the reference engine holds no device, so it always does.
    pub fn close(&mut self) -> (code: u32)
        requires
            old(self).wf(),
        ensures
            code == RESULT_OK,
            final(self).wf(),
            final(self).spec_entries().len() == 0,
            final(self).spec_index() == 0,
            final(self).spec_status() == STATUS_STOPPED,
            final(self).spec_position_ms() == 0,
    {
        self.entries = Vec::new();
        self.index = 0;
        self.status = STATUS_STOPPED;
        self.position_ms = 0;
        proof {
            assert(self.spec_entries() =~= Seq::<Seq<u8>>::empty());
        }
        RESULT_OK
    }
}

} // verus!

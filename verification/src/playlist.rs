//! The path marshaller.
//!
//! The engine takes a playlist as a batch of contiguous text entries, each
//! closed by one terminator byte, with an empty sentinel after the last
//! entry and an entry count alongside that does not include the sentinel.
//! Marshalling validates before anything else happens: a path whose
//! encoding would carry an embedded terminator byte, or a list longer than
//! the 16-bit count can carry, fails the whole submission and the engine
//! is never called. Partial playlists are never produced.

use vstd::prelude::*;
use vstd::string::StrSliceExecFns;
use vstd::string::StringSliceAdditionalSpecFns;
use vstd::utf8::*;
use crate::abi::MAX_PLAYLIST_LEN;
use crate::errors::PlayerError;

verus! {

/// A single path is marshallable when no terminator byte is embedded in
/// its text.
pub open spec fn path_ok(p: Seq<char>) -> bool {
    !p.contains('\0')
}

/// A playlist is marshallable when every path is and the entry count fits
/// the 16-bit count field.
pub open spec fn playlist_ok(paths: Seq<Seq<char>>) -> bool {
    &&& paths.len() <= MAX_PLAYLIST_LEN as int
    &&& forall|i: int| 0 <= i < paths.len() ==> path_ok(#[trigger] paths[i])
}

/// The bytes that encode one character carry a terminator byte exactly
/// when the character is the terminator itself: in this text encoding the
/// zero byte never appears inside the encoding of another character.
proof fn lemma_encode_scalar_nul(c: char)
    ensures
        encode_scalar(c as u32).contains(0u8) <==> c == '\0',
{
    let s = c as u32;
    char_is_scalar(c);
    let e = encode_scalar(s);
    if c == '\0' {
        assert((0u32 & 0x7F) as u8 == 0u8) by (bit_vector);
        assert(e[0] == 0u8);
        assert(e.contains(0u8));
    } else {
        char_u32_cast(c, s);
        assert(s != 0) by {
            if s == 0 {
                assert((s as char) == c);
            }
        }
        if has_width_1_encoding(s) {
            assert((s & 0x7F) as u8 != 0u8) by (bit_vector)
                requires
                    s <= 0x7F && s != 0,
            ;
            assert(e.len() == 1);
            assert(forall|i: int| 0 <= i < e.len() ==> e[i] != 0u8);
        } else if has_width_2_encoding(s) {
            assert((0xC0u8 | (((s >> 6) & 0x1F) as u8)) != 0u8) by (bit_vector);
            assert((0x80u8 | ((s & 0x3F) as u8)) != 0u8) by (bit_vector);
            assert(e.len() == 2);
            assert(forall|i: int| 0 <= i < e.len() ==> e[i] != 0u8);
        } else if has_width_3_encoding(s) {
            assert((0xE0u8 | (((s >> 12) & 0x0F) as u8)) != 0u8) by (bit_vector);
            assert((0x80u8 | (((s >> 6) & 0x3F) as u8)) != 0u8) by (bit_vector);
            assert((0x80u8 | ((s & 0x3F) as u8)) != 0u8) by (bit_vector);
            assert(e.len() == 3);
            assert(forall|i: int| 0 <= i < e.len() ==> e[i] != 0u8);
        } else {
            assert((0xF0u8 | (((s >> 18) & 0x7) as u8)) != 0u8) by (bit_vector);
            assert((0x80u8 | (((s >> 12) & 0x3F) as u8)) != 0u8) by (bit_vector);
            assert((0x80u8 | (((s >> 6) & 0x3F) as u8)) != 0u8) by (bit_vector);
            assert((0x80u8 | ((s & 0x3F) as u8)) != 0u8) by (bit_vector);
            assert(e.len() == 4);
            assert(forall|i: int| 0 <= i < e.len() ==> e[i] != 0u8);
        }
        assert(!e.contains(0u8));
    }
}

/// A path's encoded bytes carry a terminator byte exactly when the path's
/// text carries the terminator character: scanning the encoding for the
/// zero byte is the same check as scanning the text.
pub proof fn lemma_encode_utf8_nul(p: Seq<char>)
    ensures
        encode_utf8(p).contains(0u8) <==> p.contains('\0'),
    decreases p.len(),
{
    if p.len() == 0 {
        assert(!encode_utf8(p).contains(0u8));
        assert(!p.contains('\0'));
    } else {
        let head = encode_scalar(p[0] as u32);
        let tail = encode_utf8(p.drop_first());
        lemma_encode_scalar_nul(p[0]);
        lemma_encode_utf8_nul(p.drop_first());
        assert(encode_utf8(p) == head + tail);
        if head.contains(0u8) {
            let i = choose|i: int| 0 <= i < head.len() && head[i] == 0u8;
            assert((head + tail)[i] == 0u8);
        }
        if tail.contains(0u8) {
            let i = choose|i: int| 0 <= i < tail.len() && tail[i] == 0u8;
            assert((head + tail)[head.len() + i] == 0u8);
        }
        if (head + tail).contains(0u8) {
            let i = choose|i: int| 0 <= i < (head + tail).len() && (head + tail)[i] == 0u8;
            if i < head.len() {
                assert(head[i] == 0u8);
            } else {
                assert(tail[i - head.len()] == 0u8);
            }
        }
        if p.contains('\0') {
            let i = choose|i: int| 0 <= i < p.len() && p[i] == '\0';
            if i > 0 {
                assert(p.drop_first()[i - 1] == '\0');
            }
        }
        if p.drop_first().contains('\0') {
            let i = choose|i: int| 0 <= i < p.drop_first().len() && p.drop_first()[i] == '\0';
            assert(p[i + 1] == '\0');
        }
    }
}

/// Whether the terminator byte occurs anywhere in `bytes`.
fn has_terminator(bytes: &Vec<u8>) -> (r: bool)
    ensures
        r == bytes@.contains(0u8),
{
    let mut i: usize = 0;
    while i < bytes.len()
        invariant
            i <= bytes@.len(),
            forall|j: int| 0 <= j < i ==> bytes@[j] != 0u8,
        decreases bytes@.len() - i,
    {
        if bytes[i] == 0u8 {
            assert(bytes@.contains(0u8)) by {
                assert(bytes@[i as int] == 0u8);
            }
            return true;
        }
        i += 1;
    }
    false
}

/// A playlist marshalled for one submission call: the entry buffers the
/// engine will read, and the entry count that travels alongside them.
///
/// The buffers are transient. They live only for the duration of the
/// submission call; the engine copies what it needs and must not retain
/// references past the call's return.
pub struct EncodedPlaylist {
    /// `count` encoded entries followed by one empty sentinel buffer.
    pub buffers: Vec<Vec<u8>>,
    /// How many entries there are, the sentinel not counted.
    pub count: u16,
}

impl EncodedPlaylist {
    /// Shape of a well-formed marshalled playlist: one buffer per counted
    /// entry plus the sentinel; every entry closes with exactly one
    /// terminator byte and carries none before it; the sentinel is empty.
    pub open spec fn wf(&self) -> bool {
        &&& self.buffers@.len() == self.count as int + 1
        &&& forall|i: int|
            0 <= i < self.count as int ==> {
                let e = (#[trigger] self.buffers@[i])@;
                &&& e.len() >= 1
                &&& e[e.len() - 1] == 0u8
                &&& forall|j: int| 0 <= j < e.len() - 1 ==> e[j] != 0u8
            }
        &&& self.buffers@[self.count as int]@.len() == 0
    }

    /// The marshalled form stands for `paths` when it carries exactly
    /// their encodings, in order, one terminator byte after each.
    pub open spec fn models(&self, paths: Seq<Seq<char>>) -> bool {
        &&& self.count as int == paths.len()
        &&& self.buffers@.len() == paths.len() + 1
        &&& forall|i: int|
            0 <= i < paths.len() ==> (#[trigger] self.buffers@[i])@ == encode_utf8(
                paths[i],
            ).push(0u8)
        &&& self.buffers@[paths.len() as int]@.len() == 0
    }

    /// The bytes of the `i`-th entry without its terminator: the text the
    /// engine reads out of that entry.
    pub open spec fn payload(&self, i: int) -> Seq<u8> {
        self.buffers@[i]@.drop_last()
    }
}

/// Marshals a playlist, validating first. All-or-nothing: the marshalled
/// form exists exactly when every path is free of embedded terminator
/// bytes and the list fits the count field; otherwise nothing is produced
/// and the error names the invalid path kind.
pub fn encode_playlist(paths: &Vec<String>) -> (r: Result<EncodedPlaylist, PlayerError>)
    ensures
        r is Ok <==> playlist_ok(paths.deep_view()),
        r is Ok ==> r->Ok_0.wf() && r->Ok_0.models(paths.deep_view()),
        r is Err ==> r->Err_0 == PlayerError::InvalidPath,
{
    if paths.len() > MAX_PLAYLIST_LEN {
        return Err(PlayerError::InvalidPath);
    }
    let mut buffers: Vec<Vec<u8>> = Vec::new();
    let mut k: usize = 0;
    while k < paths.len()
        invariant
            k <= paths@.len(),
            paths@.len() <= MAX_PLAYLIST_LEN as int,
            buffers@.len() == k as int,
            forall|i: int| 0 <= i < k as int ==> path_ok(#[trigger] paths.deep_view()[i]),
            forall|i: int|
                0 <= i < k as int ==> (#[trigger] buffers@[i])@ == encode_utf8(
                    paths.deep_view()[i],
                ).push(0u8),
        decreases paths@.len() - k,
    {
        let mut entry = paths[k].as_str().as_bytes_vec();
        assert(entry@ == encode_utf8(paths.deep_view()[k as int]));
        proof {
            lemma_encode_utf8_nul(paths.deep_view()[k as int]);
        }
        if has_terminator(&entry) {
            assert(!path_ok(paths.deep_view()[k as int]));
            return Err(PlayerError::InvalidPath);
        }
        entry.push(0u8);
        buffers.push(entry);
        k += 1;
    }
    buffers.push(Vec::new());
    let count: u16 = paths.len() as u16;
    let enc = EncodedPlaylist { buffers, count };
    proof {
        assert forall|i: int| 0 <= i < enc.count as int implies {
            let e = (#[trigger] enc.buffers@[i])@;
            &&& e.len() >= 1
            &&& e[e.len() - 1] == 0u8
            &&& forall|j: int| 0 <= j < e.len() - 1 ==> e[j] != 0u8
        } by {
            let p = paths.deep_view()[i];
            lemma_encode_utf8_nul(p);
            assert(enc.buffers@[i]@ == encode_utf8(p).push(0u8));
        }
    }
    Ok(enc)
}

} // verus!

use vstd::prelude::*;
use vstd::arithmetic::div_mod::{lemma_mod_equivalence, lemma_mod_add_multiples_vanish, lemma_small_mod};

use crate::errors::ProtocolError;

verus! {

/// Largest plausible declared payload length. The length byte is
/// noise-controlled, so frames declaring more than this are treated as
/// corrupted instead of being read.
pub const MAX_PAYLOAD: usize = 64;

/// The modulus of the 16-bit frame checksum.
pub const CHECKSUM_MODULUS: u32 = 0x10000;

/// The trailing preamble byte, logically part of the checksum window.
pub const PREAMBLE_TAIL: u8 = 0xa5;

/// True when the fixed 4-byte preamble `[0xFF, 0x00, 0xFF, 0xA5]` occurs
/// in `s` starting at index `i`.
pub open spec fn preamble_at(s: Seq<u8>, i: int) -> bool {
    &&& 0 <= i
    &&& i + 4 <= s.len()
    &&& s[i] == 0xffu8
    &&& s[i + 1] == 0x00u8
    &&& s[i + 2] == 0xffu8
    &&& s[i + 3] == 0xa5u8
}

/// Finds the first occurrence of the frame preamble in a buffered byte
/// stream: the returned index is the exact position where the first
/// occurrence starts, and `None` means the stream holds no occurrence.
pub fn find_sync(stream: &[u8]) -> (r: Option<usize>)
    ensures
        match r {
            Some(i) => preamble_at(stream@, i as int) && (forall|j: int|
                0 <= j < i ==> !preamble_at(stream@, j)),
            None => forall|j: int| !preamble_at(stream@, j),
        },
{
    let n = stream.len();
    if n < 4 {
        return None;
    }
    let mut i: usize = 0;
    while i <= n - 4
        invariant
            n == stream@.len(),
            n >= 4,
            i <= n - 3,
            forall|j: int| 0 <= j < i ==> !preamble_at(stream@, j),
        decreases n - i,
    {
        if stream[i] == 0xff && stream[i + 1] == 0x00 && stream[i + 2] == 0xff && stream[i + 3]
            == 0xa5 {
            return Some(i);
        }
        i = i + 1;
    }
    None
}

/// The sliding window of the most recent bytes read from the bus, used to
/// resynchronize on the frame preamble without packet boundaries.
///
/// Feed one byte at a time with [`Synchronizer::push_byte`]; it reports
/// `true` exactly when the fed byte completes the preamble.
pub struct Synchronizer {
    window: Vec<u8>,
}

impl View for Synchronizer {
    type V = Seq<u8>;

    closed spec fn view(&self) -> Seq<u8> {
        self.window@
    }
}

impl Synchronizer {
    /// A synchronizer with an empty window.
    pub fn new() -> (r: Synchronizer)
        ensures
            r@ == Seq::<u8>::empty(),
    {
        Synchronizer { window: Vec::new() }
    }

    /// Slides `byte` into the window. Returns `true` exactly when the
    /// window now ends with the full preamble, that is, when `byte` is the
    /// last byte of an occurrence; the window is then cleared for the next
    /// scan. Otherwise only the most recent three bytes are kept: exactly
    /// the bytes that can still begin a later occurrence.
    pub fn push_byte(&mut self, byte: u8) -> (found: bool)
        requires
            old(self)@.len() <= 3,
        ensures
            found == (old(self)@.push(byte).len() == 4 && preamble_at(old(self)@.push(byte), 0)),
            found ==> final(self)@ == Seq::<u8>::empty(),
            !found ==> final(self)@ == (if old(self)@.len() == 3 {
                old(self)@.push(byte).skip(1)
            } else {
                old(self)@.push(byte)
            }),
    {
        self.window.push(byte);
        if self.window.len() == 4 {
            if self.window[0] == 0xff && self.window[1] == 0x00 && self.window[2] == 0xff
                && self.window[3] == 0xa5 {
                self.window.clear();
                return true;
            }
            self.window.remove(0);
            proof {
                assert(self@ =~= old(self)@.push(byte).skip(1));
            }
        }
        false
    }
}

/// The synchronizer's window after feeding the bytes of `s` one by one
/// from an empty window, as long as no push reported a match: the most
/// recent three bytes, or all of them while there are fewer.
pub open spec fn window_after(s: Seq<u8>) -> Seq<u8> {
    if s.len() <= 3 {
        s
    } else {
        s.skip(s.len() - 3)
    }
}

/// One push keeps the window model: sliding the next byte of the stream
/// into the window of [`window_after`] yields, along the branches of
/// [`Synchronizer::push_byte`], exactly the window of the longer stream.
pub proof fn lemma_window_evolution(s: Seq<u8>, b: u8)
    ensures
        (window_after(s).len() <= 2 ==> window_after(s).push(b) == window_after(s.push(b))),
        (window_after(s).len() == 3 ==> window_after(s).push(b).skip(1) == window_after(
            s.push(b),
        )),
{
    if s.len() <= 2 {
        assert(window_after(s).push(b) =~= window_after(s.push(b)));
    } else {
        assert(window_after(s).push(b).skip(1) =~= window_after(s.push(b)));
    }
}

/// Fed byte by byte from an empty window, the synchronizer reports a
/// match exactly at the bytes that end an occurrence of the preamble:
/// pushing `s[j]` onto the window of the first `j` bytes reports `true`
/// iff an occurrence starts at `j - 3`. Stopping at the first reported
/// match therefore leaves the stream positioned exactly after the first
/// occurrence.
pub proof fn lemma_synchronizer_detects_ends(s: Seq<u8>, j: int)
    requires
        0 <= j < s.len(),
    ensures
        ((window_after(s.take(j)).push(s[j]).len() == 4 && preamble_at(
            window_after(s.take(j)).push(s[j]),
            0,
        )) <==> preamble_at(s, j - 3)),
{
    let w = window_after(s.take(j)).push(s[j]);
    if j >= 3 {
        assert(w =~= s.subrange(j - 3, j + 1));
    }
}

/// The sum of all bytes of `s`, as a mathematical integer.
pub open spec fn sum_of(s: Seq<u8>) -> int
    decreases s.len(),
{
    if s.len() == 0 {
        0
    } else {
        sum_of(s.drop_last()) + s.last()
    }
}

/// Replacing one byte shifts the sum by exactly the difference of the bytes.
pub proof fn lemma_sum_of_update(s: Seq<u8>, i: int, b: u8)
    requires
        0 <= i < s.len(),
    ensures
        sum_of(s.update(i, b)) == sum_of(s) - s[i] + b,
    decreases s.len(),
{
    if i == s.len() - 1 {
        assert(s.update(i, b).drop_last() =~= s.drop_last());
    } else {
        assert(s.update(i, b).drop_last() =~= s.drop_last().update(i, b));
        lemma_sum_of_update(s.drop_last(), i, b);
    }
}

/// The checksum value declared by the two trailing frame bytes,
/// big-endian.
pub open spec fn checksum_value(hi: u8, lo: u8) -> int {
    0x100 * hi + lo
}

/// The checksum invariant: the declared 16-bit checksum equals, modulo
/// 2^16, the sum of all preceding frame bytes plus the trailing preamble
/// byte 0xA5, which is logically part of the checksum window.
pub open spec fn frame_checksum_ok(content: Seq<u8>, hi: u8, lo: u8) -> bool {
    checksum_value(hi, lo) == (PREAMBLE_TAIL + sum_of(content)) % (CHECKSUM_MODULUS as int)
}

/// True when `s` is a plausibly framed buffer: the five header-region
/// bytes, the payload length its fifth byte declares, and the two
/// checksum bytes, with the declared length within the plausible cap.
pub open spec fn well_framed(s: Seq<u8>) -> bool {
    &&& s.len() >= 7
    &&& s[4] <= MAX_PAYLOAD
    &&& s.len() == 7 + s[4]
}

/// What the packet assembler returns for a fully buffered frame: the
/// header-region and payload bytes exactly as given (checksum bytes
/// consumed but not included), or the error classifying the frame.
pub open spec fn assemble_spec(s: Seq<u8>) -> Result<Seq<u8>, ProtocolError> {
    if s.len() < 7 {
        Err(ProtocolError::ShortPacket)
    } else if !well_framed(s) {
        Err(ProtocolError::ChecksumMismatch)
    } else if !frame_checksum_ok(s.subrange(0, s.len() - 2), s[s.len() - 2], s[s.len() - 1]) {
        Err(ProtocolError::ChecksumMismatch)
    } else {
        Ok(s.subrange(0, s.len() - 2))
    }
}

/// Validates one buffered frame (header region, payload, two checksum
/// bytes) and returns the raw packet: the frame bytes with the checksum
/// stripped. A frame with a mismatched checksum, or with an implausible
/// declared length, is rejected wholesale and never partially trusted.
pub fn assemble_frame(frame: &[u8]) -> (r: Result<Vec<u8>, ProtocolError>)
    ensures
        match r {
            Ok(p) => assemble_spec(frame@) == Ok::<Seq<u8>, ProtocolError>(p@),
            Err(e) => assemble_spec(frame@) == Err::<Seq<u8>, ProtocolError>(e),
        },
{
    let n = frame.len();
    if n < 7 {
        return Err(ProtocolError::ShortPacket);
    }
    let declared = frame[4] as usize;
    if declared > MAX_PAYLOAD || n != 7 + declared {
        return Err(ProtocolError::ChecksumMismatch);
    }

    let content_len = n - 2;
    let mut sum: u32 = 0;
    let mut i: usize = 0;
    while i < content_len
        invariant
            n == frame@.len(),
            7 <= n <= 7 + MAX_PAYLOAD,
            content_len == n - 2,
            i <= content_len,
            sum == sum_of(frame@.subrange(0, i as int)),
            sum <= 255 * i,
        decreases content_len - i,
    {
        proof {
            assert(frame@.subrange(0, i as int + 1).drop_last() =~= frame@.subrange(0, i as int));
        }
        sum = sum + frame[i] as u32;
        i = i + 1;
    }
    proof {
        assert(frame@.subrange(0, content_len as int) =~= frame@.subrange(0, n - 2));
    }

    let declared_checksum: u32 = 0x100 * (frame[n - 2] as u32) + (frame[n - 1] as u32);
    let expected: u32 = (PREAMBLE_TAIL as u32 + sum) % CHECKSUM_MODULUS;
    if declared_checksum != expected {
        return Err(ProtocolError::ChecksumMismatch);
    }

    let mut packet: Vec<u8> = Vec::new();
    let mut k: usize = 0;
    while k < content_len
        invariant
            n == frame@.len(),
            content_len == n - 2 <= n,
            k <= content_len,
            packet@ == frame@.subrange(0, k as int),
        decreases content_len - k,
    {
        packet.push(frame[k]);
        proof {
            assert(packet@ =~= frame@.subrange(0, k as int + 1));
        }
        k = k + 1;
    }
    Ok(packet)
}

/// A well-formed frame with a correct checksum assembles to exactly its
/// header-region and payload bytes, unmodified.
pub proof fn lemma_assembler_returns_payload(s: Seq<u8>)
    requires
        well_framed(s),
        frame_checksum_ok(s.subrange(0, s.len() - 2), s[s.len() - 2], s[s.len() - 1]),
    ensures
        assemble_spec(s) == Ok::<Seq<u8>, ProtocolError>(s.subrange(0, s.len() - 2)),
{
}

/// Two checksum values agree only when both of their bytes agree.
proof fn lemma_checksum_value_injective(hi1: u8, lo1: u8, hi2: u8, lo2: u8)
    requires
        checksum_value(hi1, lo1) == checksum_value(hi2, lo2),
    ensures
        hi1 == hi2 && lo1 == lo2,
{
}

/// Two integers closer than the modulus have equal remainders only when
/// they are equal.
proof fn lemma_close_mod_distinct(x: int, y: int, m: int)
    requires
        0 < m,
        x != y,
        -m < x - y < m,
    ensures
        x % m != y % m,
{
    lemma_mod_equivalence(x, y, m);
    let d = x - y;
    if d > 0 {
        lemma_small_mod(d as nat, m as nat);
    } else {
        lemma_mod_add_multiples_vanish(d, m);
        lemma_small_mod((d + m) as nat, m as nat);
    }
}

/// Replacing one byte of the checksummed content breaks the checksum
/// invariant.
pub proof fn lemma_content_mutation_fails(content: Seq<u8>, hi: u8, lo: u8, i: int, b: u8)
    requires
        frame_checksum_ok(content, hi, lo),
        0 <= i < content.len(),
        b != content[i],
    ensures
        !frame_checksum_ok(content.update(i, b), hi, lo),
{
    lemma_sum_of_update(content, i, b);
    let m = CHECKSUM_MODULUS as int;
    let x = PREAMBLE_TAIL + sum_of(content);
    let y = PREAMBLE_TAIL + sum_of(content.update(i, b));
    lemma_close_mod_distinct(x, y, m);
}

/// Replacing either checksum byte breaks the checksum invariant.
pub proof fn lemma_checksum_byte_mutation_fails(content: Seq<u8>, hi: u8, lo: u8, hi2: u8, lo2: u8)
    requires
        frame_checksum_ok(content, hi, lo),
        hi2 != hi || lo2 != lo,
    ensures
        !frame_checksum_ok(content, hi2, lo2),
{
    if checksum_value(hi2, lo2) == checksum_value(hi, lo) {
        lemma_checksum_value_injective(hi, lo, hi2, lo2);
    }
}

/// A frame the assembler accepts is rejected after any single-byte
/// mutation, wherever in the frame the mutation falls: in the checksummed
/// content, in the declared length, or in the checksum bytes themselves.
pub proof fn lemma_assembler_rejects_mutation(s: Seq<u8>, i: int, b: u8)
    requires
        assemble_spec(s) is Ok,
        0 <= i < s.len(),
        b != s[i],
    ensures
        assemble_spec(s.update(i, b)) == Err::<Seq<u8>, ProtocolError>(
            ProtocolError::ChecksumMismatch,
        ),
{
    let t = s.update(i, b);
    let n = s.len();
    let content = s.subrange(0, n - 2);
    if i == 4 {
        assert(!well_framed(t));
    } else if i < n - 2 {
        assert(t.subrange(0, n - 2) =~= content.update(i, b));
        lemma_content_mutation_fails(content, s[n - 2], s[n - 1], i, b);
    } else {
        assert(t.subrange(0, n - 2) =~= content);
        let (hi2, lo2) = (t[n - 2], t[n - 1]);
        lemma_checksum_byte_mutation_fails(content, s[n - 2], s[n - 1], hi2, lo2);
    }
}

} // verus!

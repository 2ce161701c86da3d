//! Reading the result buffers that the engine fills in: the buffer is an
//! array of 8-byte words in the host's byte order, two of which give the
//! address and length of a variable-length payload. The engine is an x86_64
//! build and runs only on a little-endian host, so the words are read least
//! significant byte first.
use vstd::prelude::*;
use crate::error::SessionError;

verus! {

/// Width in bytes of one word of a result buffer.
pub const WORD_SIZE: usize = 8;

/// The value of word `i` of `s`: bytes `8i .. 8i + 8`, least significant first.
pub open spec fn word_at(s: Seq<u8>, i: int) -> int {
    let b = 8 * i;
    s[b] + 256 * (s[b + 1] + 256 * (s[b + 2] + 256 * (s[b + 3] + 256 * (s[b + 4] + 256 * (s[b
        + 5] + 256 * (s[b + 6] + 256 * s[b + 7]))))))
}

/// Whether word `i` lies wholly inside a buffer of `len` bytes.
pub open spec fn word_in(len: int, i: int) -> bool {
    0 <= i && 8 * i + 8 <= len
}

/// Reads word `i` of `buffer`.
pub fn read_word(buffer: &Vec<u8>, i: usize) -> (r: u64)
    requires
        word_in(buffer@.len() as int, i as int),
    ensures
        r as int == word_at(buffer@, i as int),
{
    // The byte offsets fit in usize because the buffer's length does.
    let n = buffer.len();
    assert(8 * i + 8 <= n);
    let b = 8 * i;
    let w = buffer[b] as u64 + 256 * (buffer[b + 1] as u64 + 256 * (buffer[b + 2] as u64 + 256 * (
    buffer[b + 3] as u64 + 256 * (buffer[b + 4] as u64 + 256 * (buffer[b + 5] as u64 + 256 * (
    buffer[b + 6] as u64 + 256 * buffer[b + 7] as u64))))));
    w
}

/// Whether the buffer can be decoded with the pointer at word `pw` and the
/// length at word `lw`, the length being at most `capacity`.
pub open spec fn region_ok(s: Seq<u8>, pw: int, lw: int, capacity: int) -> bool {
    word_in(s.len() as int, pw) && word_in(s.len() as int, lw) && word_at(s, lw) <= capacity
}

/// Finds the payload a result buffer refers to: the address held in word
/// `pointer_word` and the byte count held in word `length_word`. A count above
/// `capacity`, or a word index past the buffer, is rejected.
pub fn payload_region(buffer: &Vec<u8>, pointer_word: usize, length_word: usize, capacity: usize) -> (r:
    Result<(u64, usize), SessionError>)
    ensures
        r is Ok <==> region_ok(buffer@, pointer_word as int, length_word as int, capacity as int),
        r is Ok ==> r->Ok_0.0 as int == word_at(buffer@, pointer_word as int) && r->Ok_0.1 as int
            == word_at(buffer@, length_word as int),
        r is Err ==> r->Err_0 is BufferDecodeOutOfBounds,
{
    if pointer_word >= buffer.len() / WORD_SIZE || length_word >= buffer.len() / WORD_SIZE {
        return Err(SessionError::BufferDecodeOutOfBounds);
    }
    let address = read_word(buffer, pointer_word);
    let length = read_word(buffer, length_word);
    if length > capacity as u64 {
        return Err(SessionError::BufferDecodeOutOfBounds);
    }
    Ok((address, length as usize))
}

/// Whether the payload lies inside the buffer itself, the buffer starting at
/// address `base`.
pub open spec fn in_buffer(s: Seq<u8>, base: int, pw: int, lw: int) -> bool {
    &&& word_in(s.len() as int, pw)
    &&& word_in(s.len() as int, lw)
    &&& base <= word_at(s, pw)
    &&& word_at(s, pw) - base + word_at(s, lw) <= s.len()
}

/// Decodes a payload that lies inside the buffer, which starts at address
/// `base`: returns exactly the bytes the pointer/length pair names, or
/// `BufferDecodeOutOfBounds`, copying nothing, when any of them falls outside.
pub fn decode_in_buffer(buffer: &Vec<u8>, base: u64, pointer_word: usize, length_word: usize) -> (r:
    Result<Vec<u8>, SessionError>)
    ensures
        r is Ok <==> in_buffer(buffer@, base as int, pointer_word as int, length_word as int),
        r is Ok ==> r->Ok_0@ == buffer@.subrange(
            word_at(buffer@, pointer_word as int) - base,
            word_at(buffer@, pointer_word as int) - base + word_at(buffer@, length_word as int),
        ),
        r is Err ==> r->Err_0 is BufferDecodeOutOfBounds,
{
    let (address, length) = match payload_region(buffer, pointer_word, length_word, buffer.len()) {
        Ok(p) => p,
        Err(e) => return Err(e),
    };
    if address < base || address - base > (buffer.len() - length) as u64 {
        return Err(SessionError::BufferDecodeOutOfBounds);
    }
    let start = (address - base) as usize;
    let n = buffer.len();
    let mut out: Vec<u8> = Vec::with_capacity(length);
    let mut i: usize = 0;
    while i < length
        invariant
            n == buffer@.len(),
            start + length <= n,
            i <= length,
            out@ == buffer@.subrange(start as int, start + i),
        decreases length - i,
    {
        out.push(buffer[start + i]);
        i = i + 1;
        assert(out@ =~= buffer@.subrange(start as int, start + i));
    }
    Ok(out)
}

/// A length word above the buffer's size can never be decoded inside it:
/// `decode_in_buffer` then fails with `BufferDecodeOutOfBounds`, whatever the
/// pointer word and the base.
pub proof fn lemma_oversized_length_rejected(s: Seq<u8>, base: int, pw: int, lw: int)
    requires
        word_in(s.len() as int, lw),
        word_at(s, lw) > s.len(),
    ensures
        !in_buffer(s, base, pw, lw),
{
}

} // verus!

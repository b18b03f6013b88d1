//! Wire format of the coverage data channel: one frame per coverage sample,
//! a 4-byte little-endian word count followed by that many 64-bit coverage
//! words, each as 8 little-endian bytes. Both ends of the channel are the
//! same build, so no version tag or magic number is carried.
use vstd::bytes::{
    lemma_auto_spec_u32_to_from_le_bytes, lemma_auto_spec_u64_to_from_le_bytes,
    spec_u32_from_le_bytes, spec_u32_to_le_bytes, spec_u64_from_le_bytes, spec_u64_to_le_bytes,
    u32_from_le_bytes, u32_to_le_bytes, u64_from_le_bytes, u64_to_le_bytes,
};
use vstd::prelude::*;
use vstd::slice::slice_subrange;

verus! {

/// Largest word count one frame may carry. A count above this bound is
/// treated as protocol corruption and rejected before any buffer for the
/// frame body is allocated.
pub const MAX_FRAME_WORDS: u32 = 0x10_0000;

/// Bytes of the count field that opens every frame.
pub const FRAME_HEADER_LEN: usize = 4;

/// The body of a frame: each coverage word as 8 little-endian bytes,
/// in sample order.
pub open spec fn spec_words_bytes(words: Seq<u64>) -> Seq<u8>
    decreases words.len(),
{
    if words.len() == 0 {
        Seq::<u8>::empty()
    } else {
        spec_u64_to_le_bytes(words[0]) + spec_words_bytes(words.skip(1))
    }
}

/// A whole frame: the word count as 4 little-endian bytes, then the body.
pub open spec fn spec_frame(words: Seq<u64>) -> Seq<u8> {
    spec_u32_to_le_bytes(words.len() as u32) + spec_words_bytes(words)
}

/// A coverage sample that may be framed: non-empty (an empty sample is a
/// contract violation of the instrumentation) and within the count bound.
pub open spec fn frame_sendable(words: Seq<u64>) -> bool {
    1 <= words.len() <= MAX_FRAME_WORDS
}

/// Why a byte buffer is not a valid frame.
#[derive(Debug, Clone, Copy, PartialEq, Eq, Structural)]
pub enum FrameError {
    /// Fewer than 4 bytes: no complete count field.
    TooShort,
    /// The count field is zero or above `MAX_FRAME_WORDS`.
    BadCount,
    /// The buffer length does not match the announced word count.
    LengthMismatch,
}

/// The body bytes decoded back into words, 8 bytes at a time; a trailing
/// fragment shorter than one word is ignored.
pub open spec fn spec_decode_words(b: Seq<u8>) -> Seq<u64>
    decreases b.len(),
{
    if b.len() < 8 {
        Seq::<u64>::empty()
    } else {
        seq![spec_u64_from_le_bytes(b.take(8))] + spec_decode_words(b.skip(8))
    }
}

/// The meaning of a byte buffer under the frame format: either the carried
/// words or the exact reason the buffer is rejected.
pub open spec fn spec_frame_words(b: Seq<u8>) -> Result<Seq<u64>, FrameError> {
    if b.len() < 4 {
        Result::Err(FrameError::TooShort)
    } else {
        let count = spec_u32_from_le_bytes(b.take(4));
        if count < 1 || count > MAX_FRAME_WORDS {
            Result::Err(FrameError::BadCount)
        } else if b.len() - 4 != count * 8 {
            Result::Err(FrameError::LengthMismatch)
        } else {
            Result::Ok(spec_decode_words(b.skip(4)))
        }
    }
}

/// Frame one coverage sample for the data channel.
pub fn encode_frame(words: &Vec<u64>) -> (out: Vec<u8>)
    requires
        frame_sendable(words@),
    ensures
        out@ == spec_frame(words@),
{
    let count: u32 = words.len() as u32;
    let mut out: Vec<u8> = u32_to_le_bytes(count);
    let mut i: usize = 0;
    proof {
        assert(words@.skip(0) =~= words@);
    }
    while i < words.len()
        invariant
            i <= words@.len(),
            frame_sendable(words@),
            out@ + spec_words_bytes(words@.skip(i as int)) == spec_frame(words@),
        decreases words@.len() - i,
    {
        let mut word_bytes = u64_to_le_bytes(words[i]);
        proof {
            let rest = words@.skip(i as int);
            assert(rest[0] == words@[i as int]);
            assert(rest.skip(1) =~= words@.skip(i + 1));
            assert((out@ + word_bytes@) + spec_words_bytes(words@.skip(i + 1)) =~= out@
                + spec_words_bytes(rest));
        }
        out.append(&mut word_bytes);
        i = i + 1;
    }
    proof {
        assert(words@.skip(words@.len() as int) =~= Seq::<u64>::empty());
        assert(out@ + Seq::<u8>::empty() =~= out@);
    }
    out
}

/// Decode the body of a frame whose count field was already validated.
fn decode_words(body: &[u8], count: u32) -> (words: Vec<u64>)
    requires
        body@.len() == count * 8,
        count <= MAX_FRAME_WORDS,
    ensures
        words@ == spec_decode_words(body@),
        words@.len() == count,
{
    let mut words: Vec<u64> = Vec::new();
    let mut i: usize = 0;
    proof {
        assert(body@.skip(0) =~= body@);
        assert(words@ + spec_decode_words(body@) =~= spec_decode_words(body@));
    }
    while i < count as usize
        invariant
            i <= count,
            body@.len() == count * 8,
            count <= MAX_FRAME_WORDS,
            words@.len() == i,
            words@ + spec_decode_words(body@.skip(8 * i as int)) == spec_decode_words(body@),
        decreases count - i,
    {
        let chunk = slice_subrange(body, i * 8, i * 8 + 8);
        let w = u64_from_le_bytes(chunk);
        proof {
            let rest = body@.skip(8 * i as int);
            assert(rest.len() >= 8);
            assert(rest.take(8) =~= chunk@);
            assert(rest.skip(8) =~= body@.skip(8 * (i + 1)));
            assert(words@.push(w) + spec_decode_words(body@.skip(8 * (i + 1))) =~= words@
                + spec_decode_words(rest));
        }
        words.push(w);
        i = i + 1;
    }
    proof {
        assert(body@.skip(8 * count as int) =~= Seq::<u8>::empty());
        assert(words@ + Seq::<u64>::empty() =~= words@);
    }
    words
}

/// Decode one frame. The count field is validated against the bound and
/// against the buffer length before the word buffer is allocated.
pub fn decode_frame(bytes: &Vec<u8>) -> (r: Result<Vec<u64>, FrameError>)
    ensures
        match r {
            Result::Ok(words) => spec_frame_words(bytes@) == Result::<Seq<u64>, FrameError>::Ok(
                words@,
            ),
            Result::Err(e) => spec_frame_words(bytes@) == Result::<Seq<u64>, FrameError>::Err(e),
        },
{
    if bytes.len() < 4 {
        return Result::Err(FrameError::TooShort);
    }
    let header = slice_subrange(bytes.as_slice(), 0, 4);
    let count = u32_from_le_bytes(header);
    proof {
        assert(header@ =~= bytes@.take(4));
    }
    if count < 1 || count > MAX_FRAME_WORDS {
        return Result::Err(FrameError::BadCount);
    }
    let body_len: usize = (count as usize) * 8;
    if bytes.len() - 4 != body_len {
        return Result::Err(FrameError::LengthMismatch);
    }
    let body = slice_subrange(bytes.as_slice(), 4, bytes.len());
    proof {
        assert(body@ =~= bytes@.skip(4));
    }
    let words = decode_words(body, count);
    Result::Ok(words)
}

/// The body of a frame is 8 bytes per word.
pub proof fn lemma_words_bytes_len(words: Seq<u64>)
    ensures
        spec_words_bytes(words).len() == 8 * words.len(),
    decreases words.len(),
{
    lemma_auto_spec_u64_to_from_le_bytes();
    if words.len() > 0 {
        lemma_words_bytes_len(words.skip(1));
    }
}

/// Decoding inverts encoding on each frame body.
proof fn lemma_words_round_trip(words: Seq<u64>)
    ensures
        spec_decode_words(spec_words_bytes(words)) == words,
    decreases words.len(),
{
    lemma_auto_spec_u64_to_from_le_bytes();
    if words.len() == 0 {
        assert(spec_decode_words(spec_words_bytes(words)) =~= words);
    } else {
        let b = spec_words_bytes(words);
        lemma_words_bytes_len(words.skip(1));
        assert(b.take(8) =~= spec_u64_to_le_bytes(words[0]));
        assert(b.skip(8) =~= spec_words_bytes(words.skip(1)));
        lemma_words_round_trip(words.skip(1));
        assert(spec_decode_words(b) =~= words);
    }
}

/// Framing round-trip: every sendable sample, once framed, decodes back to
/// the identical word sequence.
pub proof fn lemma_frame_round_trip(words: Seq<u64>)
    requires
        frame_sendable(words),
    ensures
        spec_frame_words(spec_frame(words)) == Result::<Seq<u64>, FrameError>::Ok(words),
{
    lemma_auto_spec_u32_to_from_le_bytes();
    let b = spec_frame(words);
    lemma_words_bytes_len(words);
    assert(b.take(4) =~= spec_u32_to_le_bytes(words.len() as u32));
    assert(b.skip(4) =~= spec_words_bytes(words));
    lemma_words_round_trip(words);
}

} // verus!

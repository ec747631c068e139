//! The reference oracle: the decoder of the standard library, taken as ground truth.
//!
//! Its verdict is stated over `vstd::utf8::valid_utf8`, the mathematical definition of
//! well-formed UTF-8. Where it rejects, the offset it reports is pinned down by that
//! definition as well, and so is whether the invalid run is cut off by the end of the
//! input; the length of a run that an unexpected byte ends is the decoder's own.

use crate::verdict::{ErrorLen, OracleVerdict, RawFault};
use vstd::prelude::*;
use vstd::utf8::{
    decode_first_codepoint, encode_utf8, encode_utf8_valid_utf8, is_continuation_byte,
    length_of_first_codepoint, length_of_first_scalar,
    partial_valid_utf8_extend, pop_first_scalar, valid_first_scalar,
    valid_leading_and_continuation_bytes_first_codepoint, valid_utf8, valid_utf8_concat,
};

verus! {

/// The first `n` bytes of `bytes` are well-formed UTF-8, and no longer prefix is.
pub open spec fn is_longest_valid_prefix(bytes: Seq<u8>, n: int) -> bool {
    &&& 0 <= n <= bytes.len()
    &&& valid_utf8(bytes.subrange(0, n))
    &&& forall|m: int| n < m <= bytes.len() ==> !valid_utf8(#[trigger] bytes.subrange(0, m))
}

/// The length of the longest well-formed prefix of `bytes` that has at most `limit`
/// bytes.
pub open spec fn valid_prefix_within(bytes: Seq<u8>, limit: nat) -> nat
    decreases limit,
{
    if limit == 0 {
        0
    } else if limit <= bytes.len() && valid_utf8(bytes.subrange(0, limit as int)) {
        limit
    } else {
        valid_prefix_within(bytes, (limit - 1) as nat)
    }
}

/// The offset of the first byte of `bytes` that is not part of a well-formed prefix:
/// the length of the longest well-formed prefix. It is the length of `bytes` exactly
/// when `bytes` is well-formed.
pub open spec fn valid_up_to(bytes: Seq<u8>) -> nat {
    valid_prefix_within(bytes, bytes.len())
}

/// The bytes `more`, put after `bytes`, complete a well-formed encoding of one scalar
/// value that `bytes` begins and does not end.
pub open spec fn completes(bytes: Seq<u8>, more: Seq<u8>) -> bool {
    &&& 0 < bytes.len() < length_of_first_scalar(bytes + more)
    &&& valid_first_scalar(bytes + more)
}

/// `bytes` is the beginning of a multi-byte sequence whose end is missing: every byte
/// is one that a well-formed encoding of a scalar value can hold at its place, and
/// with more bytes after them the encoding would be complete.
pub open spec fn is_truncated(bytes: Seq<u8>) -> bool {
    exists|more: Seq<u8>| completes(bytes, more)
}

/// The length that the reference decoder gives for the invalid run in `bytes` where
/// an unexpected byte ends the run. It has a meaning only where `bytes` is malformed
/// and the run is not cut off by the end of the input.
pub uninterp spec fn reference_definite_len(bytes: Seq<u8>) -> usize;

/// The length that the reference decoder gives for the invalid run in `bytes`: `None`
/// exactly where the bytes after the longest well-formed prefix are a sequence that
/// the end of the input cuts off.
pub open spec fn reference_error_len(bytes: Seq<u8>) -> Option<usize> {
    if is_truncated(bytes.skip(valid_up_to(bytes) as int)) {
        None
    } else {
        Some(reference_definite_len(bytes))
    }
}

/// The verdict of the reference decoder on `bytes`.
pub open spec fn oracle_verdict(bytes: Seq<u8>) -> OracleVerdict {
    if valid_utf8(bytes) {
        OracleVerdict::Valid
    } else {
        OracleVerdict::Invalid {
            valid_up_to: valid_up_to(bytes) as usize,
            error_len: ErrorLen::of(reference_error_len(bytes)),
        }
    }
}

/// What the reference decoder hands back for `bytes` before it is normalized: success,
/// or the offset of the first invalid byte with the length of the invalid run.
pub open spec fn reference_outcome(bytes: Seq<u8>) -> Result<(), RawFault> {
    if valid_utf8(bytes) {
        Ok(())
    } else {
        Err((valid_up_to(bytes) as usize, reference_error_len(bytes)))
    }
}

/// `bytes` begins with a leading byte and the continuation bytes that it announces,
/// but they encode a code point that fits into a shorter sequence.
pub open spec fn begins_overlong(bytes: Seq<u8>) -> bool {
    &&& valid_leading_and_continuation_bytes_first_codepoint(bytes)
    &&& {
        let code_point = decode_first_codepoint(bytes);
        let width = length_of_first_codepoint(bytes);
        ||| width == 2 && code_point < 0x80
        ||| width == 3 && code_point < 0x800
        ||| width == 4 && code_point < 0x1_0000
    }
}

proof fn lemma_valid_prefix_within(bytes: Seq<u8>, limit: nat)
    requires
        limit <= bytes.len(),
    ensures
        valid_prefix_within(bytes, limit) <= limit,
        valid_utf8(bytes.subrange(0, valid_prefix_within(bytes, limit) as int)),
        forall|m: int|
            valid_prefix_within(bytes, limit) < m <= limit ==> !valid_utf8(
                #[trigger] bytes.subrange(0, m),
            ),
    decreases limit,
{
    if limit == 0 {
        assert(bytes.subrange(0, 0).len() == 0);
    } else if valid_utf8(bytes.subrange(0, limit as int)) {
    } else {
        lemma_valid_prefix_within(bytes, (limit - 1) as nat);
    }
}

/// `valid_up_to` is the length of the longest well-formed prefix.
pub proof fn lemma_valid_up_to_is_longest(bytes: Seq<u8>)
    ensures
        is_longest_valid_prefix(bytes, valid_up_to(bytes) as int),
{
    lemma_valid_prefix_within(bytes, bytes.len());
}

/// A byte sequence has one longest well-formed prefix only.
pub proof fn lemma_longest_valid_prefix_unique(bytes: Seq<u8>, n: int, m: int)
    requires
        is_longest_valid_prefix(bytes, n),
        is_longest_valid_prefix(bytes, m),
    ensures
        n == m,
{
    if n < m {
        assert(!valid_utf8(bytes.subrange(0, m)));
    } else if m < n {
        assert(!valid_utf8(bytes.subrange(0, n)));
    }
}

/// A byte sequence is well-formed exactly when its longest well-formed prefix is the
/// whole of it, and then the oracle accepts it.
pub proof fn lemma_valid_iff_whole(bytes: Seq<u8>)
    ensures
        valid_utf8(bytes) <==> valid_up_to(bytes) == bytes.len(),
        oracle_verdict(bytes) is Valid <==> valid_up_to(bytes) == bytes.len(),
{
    lemma_valid_up_to_is_longest(bytes);
    assert(bytes.subrange(0, bytes.len() as int) =~= bytes);
}

/// The empty sequence is well-formed: the oracle accepts it.
pub proof fn lemma_empty_is_valid(bytes: Seq<u8>)
    requires
        bytes.len() == 0,
    ensures
        oracle_verdict(bytes) is Valid,
{
}

/// Where the oracle rejects, the bytes from the reported offset on do not begin with
/// a well-formed encoding of a scalar value: the offset is where the damage starts.
pub proof fn lemma_no_scalar_at_valid_up_to(bytes: Seq<u8>)
    requires
        !valid_utf8(bytes),
    ensures
        valid_up_to(bytes) < bytes.len(),
        !valid_first_scalar(bytes.subrange(valid_up_to(bytes) as int, bytes.len() as int)),
{
    let at = valid_up_to(bytes) as int;
    let rest = bytes.subrange(at, bytes.len() as int);
    lemma_valid_up_to_is_longest(bytes);
    lemma_valid_iff_whole(bytes);
    if valid_first_scalar(rest) {
        partial_valid_utf8_extend(bytes, at);
        let next = at + length_of_first_scalar(rest);
        assert(!valid_utf8(bytes.subrange(0, next)));
    }
}

/// The oracle's verdict depends on the bytes alone: two sequences of the same bytes
/// get the same verdict, wherever they are stored and however often they are judged.
pub proof fn lemma_same_bytes_same_verdict(first: Seq<u8>, second: Seq<u8>)
    requires
        first.len() == second.len(),
        forall|i: int| 0 <= i < first.len() ==> first[i] == second[i],
    ensures
        oracle_verdict(first) == oracle_verdict(second),
{
    assert(first =~= second);
}

/// The bytes that encode any text are well-formed, whatever scripts the text mixes
/// and however many bytes its characters take: the oracle accepts them.
pub proof fn lemma_encoded_text_is_valid(text: Seq<char>)
    ensures
        valid_utf8(encode_utf8(text)),
        oracle_verdict(encode_utf8(text)) is Valid,
{
    encode_utf8_valid_utf8(text);
}

proof fn lemma_first_scalar_of_prefix(bytes: Seq<u8>, k: int)
    requires
        0 < k <= bytes.len(),
        valid_first_scalar(bytes.subrange(0, k)),
    ensures
        valid_first_scalar(bytes),
        length_of_first_scalar(bytes) == length_of_first_scalar(bytes.subrange(0, k)),
        1 <= length_of_first_scalar(bytes) <= k,
{
    let prefix = bytes.subrange(0, k);
    assert(prefix[0] == bytes[0]);
    if k >= 2 {
        assert(prefix[1] == bytes[1]);
    }
    if k >= 3 {
        assert(prefix[2] == bytes[2]);
    }
    if k >= 4 {
        assert(prefix[3] == bytes[3]);
    }
}

proof fn lemma_valid_after_valid(head: Seq<u8>, tail: Seq<u8>)
    requires
        valid_utf8(head),
        valid_utf8(head + tail),
    ensures
        valid_utf8(tail),
    decreases head.len(),
{
    if head.len() == 0 {
        assert(head + tail =~= tail);
    } else {
        let all = head + tail;
        assert(all.subrange(0, head.len() as int) =~= head);
        lemma_first_scalar_of_prefix(all, head.len() as int);
        assert(pop_first_scalar(all) =~= pop_first_scalar(head) + tail);
        lemma_valid_after_valid(pop_first_scalar(head), tail);
    }
}

/// Well-formed bytes in front move the offset and change nothing else: the longest
/// well-formed prefix of `head + tail` is `head` and the longest well-formed prefix
/// of `tail`.
pub proof fn lemma_valid_up_to_after_valid(head: Seq<u8>, tail: Seq<u8>)
    requires
        valid_utf8(head),
    ensures
        valid_up_to(head + tail) == head.len() + valid_up_to(tail),
        valid_utf8(head + tail) <==> valid_utf8(tail),
{
    let all = head + tail;
    let n = valid_up_to(tail) as int;
    let at = head.len() + n;
    lemma_valid_up_to_is_longest(tail);
    assert(valid_utf8(all.subrange(0, at))) by {
        valid_utf8_concat(head, tail.subrange(0, n));
        assert(all.subrange(0, at) =~= head + tail.subrange(0, n));
    }
    assert forall|m: int| at < m <= all.len() implies !valid_utf8(
        #[trigger] all.subrange(0, m),
    ) by {
        let part = tail.subrange(0, m - head.len());
        assert(all.subrange(0, m) =~= head + part);
        if valid_utf8(head + part) {
            lemma_valid_after_valid(head, part);
        }
    }
    lemma_valid_up_to_is_longest(all);
    lemma_longest_valid_prefix_unique(all, at, valid_up_to(all) as int);
    lemma_valid_iff_whole(all);
    lemma_valid_iff_whole(tail);
}

/// Where well-formed bytes are followed by bytes that do not begin with a well-formed
/// scalar, the oracle rejects the whole and reports the offset at which those bytes
/// begin.
pub proof fn lemma_rejected_where_no_scalar_begins(head: Seq<u8>, tail: Seq<u8>)
    requires
        valid_utf8(head),
        tail.len() > 0,
        !valid_first_scalar(tail),
    ensures
        oracle_verdict(head + tail) is Invalid,
        valid_up_to(head + tail) == head.len(),
{
    assert forall|m: int| 0 < m <= tail.len() implies !valid_utf8(
        #[trigger] tail.subrange(0, m),
    ) by {
        if valid_utf8(tail.subrange(0, m)) {
            lemma_first_scalar_of_prefix(tail, m);
        }
    }
    assert(tail.subrange(0, 0).len() == 0);
    lemma_valid_up_to_is_longest(tail);
    lemma_longest_valid_prefix_unique(tail, 0, valid_up_to(tail) as int);
    lemma_valid_iff_whole(tail);
    lemma_valid_up_to_after_valid(head, tail);
}

/// A truncated sequence does not begin with a well-formed scalar, and it is one to
/// three bytes long.
pub proof fn lemma_truncated_is_short(bytes: Seq<u8>)
    requires
        is_truncated(bytes),
    ensures
        1 <= bytes.len() <= 3,
        !valid_first_scalar(bytes),
{
    let more = choose|more: Seq<u8>| completes(bytes, more);
    let whole = bytes + more;
    assert(whole[0] == bytes[0]);
}

/// A multi-byte sequence whose end is missing is rejected where it begins, as
/// incomplete: after well-formed bytes the oracle reports the offset of the leading
/// byte, which is 0 where the truncated sequence stands alone, and an invalid run
/// that reaches the end of the input.
pub proof fn lemma_truncated_rejected_where_it_begins(head: Seq<u8>, tail: Seq<u8>)
    requires
        valid_utf8(head),
        is_truncated(tail),
    ensures
        oracle_verdict(head + tail) is Invalid,
        valid_up_to(head + tail) == head.len(),
        oracle_verdict(head + tail)->error_len == ErrorLen::Incomplete,
        reference_error_len(head + tail) is None,
{
    lemma_truncated_is_short(tail);
    lemma_rejected_where_no_scalar_begins(head, tail);
    assert((head + tail).skip(head.len() as int) =~= tail);
}

/// A leading byte of a multi-byte sequence with nothing after it is a truncated
/// sequence.
pub proof fn lemma_lone_leading_byte_is_truncated(lead: u8)
    requires
        0xC2 <= lead <= 0xF4,
    ensures
        is_truncated(seq![lead]),
{
    let bytes = seq![lead];
    let second: u8 = if lead == 0xE0 {
        0xA0
    } else if lead == 0xF0 {
        0x90
    } else {
        0x80
    };
    let more = if lead <= 0xDF {
        seq![second]
    } else if lead <= 0xEF {
        seq![second, 0x80u8]
    } else {
        seq![second, 0x80u8, 0x80u8]
    };
    let whole = bytes + more;
    assert(whole[0] == lead && whole[1] == second);
    if lead <= 0xDF {
        let code = (((lead & 0x1F) as u32) << 6) | ((second & 0x3f) as u32);
        assert(0x80 <= code < 0x800) by (bit_vector)
            requires
                0xC2 <= lead <= 0xDF,
                second == 0x80,
                code == (((lead & 0x1F) as u32) << 6) | ((second & 0x3f) as u32),
        ;
    } else if lead <= 0xEF {
        assert(whole[2] == 0x80);
        let code = (((lead & 0x0F) as u32) << 12) | (((second & 0x3f) as u32) << 6) | ((0x80u8
            & 0x3f) as u32);
        assert(0x800 <= code && !(0xD800 <= code <= 0xDFFF)) by (bit_vector)
            requires
                0xE0 <= lead <= 0xEF,
                second == (if lead == 0xE0 {
                    0xA0u8
                } else {
                    0x80u8
                }),
                code == (((lead & 0x0F) as u32) << 12) | (((second & 0x3f) as u32) << 6) | ((
                0x80u8 & 0x3f) as u32),
        ;
    } else {
        assert(whole[2] == 0x80 && whole[3] == 0x80);
        let code = (((lead & 0x07) as u32) << 18) | (((second & 0x3f) as u32) << 12) | (((0x80u8
            & 0x3f) as u32) << 6) | ((0x80u8 & 0x3f) as u32);
        assert(0x1_0000 <= code <= 0x10_ffff) by (bit_vector)
            requires
                0xF0 <= lead <= 0xF4,
                second == (if lead == 0xF0 {
                    0x90u8
                } else {
                    0x80u8
                }),
                code == (((lead & 0x07) as u32) << 18) | (((second & 0x3f) as u32) << 12) | (((
                0x80u8 & 0x3f) as u32) << 6) | ((0x80u8 & 0x3f) as u32),
        ;
    }
    assert(completes(bytes, more));
}

/// An overlong encoding is rejected where it begins: after well-formed bytes the
/// oracle reports the offset of its leading byte, whatever follows it.
pub proof fn lemma_overlong_rejected_where_it_begins(head: Seq<u8>, tail: Seq<u8>)
    requires
        valid_utf8(head),
        begins_overlong(tail),
    ensures
        oracle_verdict(head + tail) is Invalid,
        valid_up_to(head + tail) == head.len(),
{
    lemma_rejected_where_no_scalar_begins(head, tail);
}

/// Two bytes of which the first is `0xC0` or `0xC1` and the second a continuation
/// byte encode, overlong, a code point that one byte holds.
pub proof fn lemma_two_byte_overlong(bytes: Seq<u8>)
    requires
        bytes.len() >= 2,
        bytes[0] == 0xC0 || bytes[0] == 0xC1,
        is_continuation_byte(bytes[1]),
    ensures
        begins_overlong(bytes),
{
    let lead = bytes[0];
    let next = bytes[1];
    assert((((lead & 0x1F) as u32) << 6) | ((next & 0x3f) as u32) < 0x80) by (bit_vector)
        requires
            lead == 0xC0 || lead == 0xC1,
            0x80 <= next <= 0xbf,
    ;
}

/// Decodes `bytes` with `std::str::from_utf8` and hands back, where the decoder
/// fails, what `valid_up_to` and `error_len` of its `Utf8Error` return.
///
/// Taken on trust from the documentation of the standard library: the decoder
/// succeeds exactly on well-formed UTF-8; `valid_up_to` is the largest index up to
/// which the input decodes; `error_len` is `None` where the end of the input was
/// reached unexpectedly, so that the bytes from `valid_up_to` on could be a valid
/// character of which the rest is missing, and otherwise, where an unexpected byte
/// was met, the length of an invalid run that starts at `valid_up_to` and lies within
/// the input, a length that depends on the bytes alone.
#[verifier::external_body]
fn reference_decode(bytes: &[u8]) -> (outcome: Result<(), RawFault>)
    ensures
        outcome is Ok <==> valid_utf8(bytes@),
        outcome matches Err(fault) ==> is_longest_valid_prefix(bytes@, fault.0 as int),
        outcome matches Err(fault) ==> (fault.1 is None <==> is_truncated(
            bytes@.skip(fault.0 as int),
        )),
        outcome matches Err(fault) ==> (fault.1 matches Some(n) ==> n == reference_definite_len(
            bytes@,
        )),
        outcome matches Err(fault) ==> (fault.1 matches Some(n) ==> 1 <= n && fault.0 + n
            <= bytes@.len()),
{
    match std::str::from_utf8(bytes) {
        Ok(_) => Ok(()),
        Err(e) => Err((e.valid_up_to(), e.error_len())),
    }
}

/// Classifies `bytes` with the reference decoder.
///
/// Any byte sequence is accepted as input. The verdict is `Valid` exactly for
/// well-formed UTF-8. Otherwise it gives the length of the longest well-formed prefix
/// and the length of the invalid run after it, which is incomplete exactly where the
/// end of the input cuts a sequence off. Both lie within the input.
pub fn classify(bytes: &[u8]) -> (verdict: OracleVerdict)
    ensures
        verdict == oracle_verdict(bytes@),
        verdict is Valid <==> valid_utf8(bytes@),
        verdict is Invalid ==> is_longest_valid_prefix(bytes@, verdict->valid_up_to as int),
        verdict is Invalid ==> (verdict->error_len is Incomplete <==> is_truncated(
            bytes@.skip(verdict->valid_up_to as int),
        )),
        verdict.fits(bytes@.len()),
{
    match reference_decode(bytes) {
        Ok(_) => OracleVerdict::Valid,
        Err(fault) => {
            proof {
                lemma_valid_up_to_is_longest(bytes@);
                lemma_longest_valid_prefix_unique(
                    bytes@,
                    fault.0 as int,
                    valid_up_to(bytes@) as int,
                );
                assert(bytes@.subrange(0, bytes@.len() as int) =~= bytes@);
                if fault.1 is None {
                    lemma_truncated_is_short(bytes@.skip(fault.0 as int));
                }
            }
            OracleVerdict::Invalid {
                valid_up_to: fault.0,
                error_len: ErrorLen::from_reported(fault.1),
            }
        },
    }
}

} // verus!

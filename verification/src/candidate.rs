//! The validators under test, as this library calls them.
//!
//! Both entry points are the portable ones of `simdutf8`, which pick an implementation
//! for the running machine by themselves. `simdutf8` documents them as drop-in
//! replacements for the decoder of the standard library: every implementation that
//! they may pick answers the same question of the same bytes, so what they report
//! depends on the bytes alone and has a name here. That the reports are the right
//! ones is what the checks are run to test, so no contract here assumes it. What the
//! contracts do say beyond the names is what the source of `simdutf8` shows for every
//! target and every machine: an input of fewer than 64 bytes never reaches vectorized
//! code but goes to the decoder of the standard library, whose answer is passed on.

use crate::driver::SHORT_INPUT;
use crate::oracle::reference_outcome;
use crate::verdict::RawFault;
use vstd::prelude::*;
use vstd::utf8::valid_utf8;

verus! {

/// What `simdutf8::basic::from_utf8` reports of `bytes`: whether it accepts them.
pub uninterp spec fn basic_reported(bytes: Seq<u8>) -> bool;

/// What `simdutf8::compat::from_utf8` reports of `bytes`: success, or the offset and
/// the length that its error gives.
pub uninterp spec fn compat_reported(bytes: Seq<u8>) -> Result<(), RawFault>;

/// Asks `simdutf8::basic::from_utf8` whether it accepts `bytes`: `true` for `Ok`.
///
/// Taken on trust: the answer depends on the bytes alone, as the crate documents;
/// and, from its source, an input shorter than its block of 64 bytes is handed to
/// `core::str::from_utf8`, which succeeds exactly on well-formed UTF-8. Whether the
/// answer to a longer input is the right one is not claimed. A panic inside the
/// validator is not caught: a validator that crashes on some bytes ends the run.
#[verifier::external_body]
pub(crate) fn basic_accepts(bytes: &[u8]) -> (accepted: bool)
    ensures
        accepted == basic_reported(bytes@),
        bytes@.len() < SHORT_INPUT ==> accepted == valid_utf8(bytes@),
{
    match simdutf8::basic::from_utf8(bytes) {
        Ok(_) => true,
        Err(_) => false,
    }
}

/// Runs `simdutf8::compat::from_utf8` on `bytes` and hands back, where it fails, what
/// `valid_up_to` and `error_len` of its `Utf8Error` return.
///
/// Taken on trust: the outcome depends on the bytes alone, as the crate documents;
/// and, from its source, an input shorter than its block of 64 bytes is handed to
/// `core::str::from_utf8`, and the offset and the length of the decoder's error are
/// passed on unchanged. Whether the outcome on a longer input is the right one is not
/// claimed. A panic inside the validator is not caught: a validator that crashes on
/// some bytes ends the run.
#[verifier::external_body]
pub(crate) fn compat_outcome(bytes: &[u8]) -> (outcome: Result<(), RawFault>)
    ensures
        outcome == compat_reported(bytes@),
        bytes@.len() < SHORT_INPUT ==> outcome == reference_outcome(bytes@),
{
    match simdutf8::compat::from_utf8(bytes) {
        Ok(_) => Ok(()),
        Err(e) => Err((e.valid_up_to(), e.error_len())),
    }
}

} // verus!

//! The comparators: one verdict of a validator under test held against the verdict of
//! the reference decoder on the same bytes.
//!
//! A comparator never panics. It hands back the kind of disagreement it found, and the
//! caller decides how loudly to fail.

use crate::verdict::{BasicVerdict, CompatVerdict, OracleVerdict};
use vstd::prelude::*;

verus! {

/// The ways in which a validator can disagree with the reference decoder.
#[derive(Clone, Copy, Debug, PartialEq, Eq, Structural)]
pub enum Mismatch {
    /// The validator accepted bytes that the reference decoder rejects. This is the
    /// graver defect: malformed data passes on to whoever trusts the validator.
    AcceptedInvalid,
    /// The validator rejected bytes that the reference decoder accepts.
    RejectedValid,
    /// Both reject the bytes, but they differ on where the well-formed prefix ends or
    /// on how long the invalid run is.
    Location,
}

impl Mismatch {
    /// A one-line description of the disagreement, naming first what the validator
    /// said and then what the reference decoder said.
    pub fn message(&self) -> (text: &'static str)
        ensures
            *self is AcceptedInvalid ==> text@ == "simd: Ok, std: Err"@,
            *self is RejectedValid ==> text@ == "simd: Err, std: Ok"@,
            *self is Location ==> text@ == "simd: Err, std: Err, at another place"@,
    {
        match self {
            Mismatch::AcceptedInvalid => "simd: Ok, std: Err",
            Mismatch::RejectedValid => "simd: Err, std: Ok",
            Mismatch::Location => "simd: Err, std: Err, at another place",
        }
    }
}

/// The disagreement, if any, between the reference decoder and a validator that only
/// accepts or rejects: they have to agree on validity and on nothing else.
pub open spec fn basic_disagreement(oracle: OracleVerdict, candidate: BasicVerdict) -> Option<
    Mismatch,
> {
    if oracle is Valid && candidate is Invalid {
        Some(Mismatch::RejectedValid)
    } else if oracle is Invalid && candidate is Valid {
        Some(Mismatch::AcceptedInvalid)
    } else {
        None
    }
}

/// The disagreement, if any, between the reference decoder and a validator that
/// locates its failures: they have to agree on validity and, where both reject, on the
/// offset and on the length of the invalid run, an incomplete run matching only
/// another incomplete run.
pub open spec fn compat_disagreement(oracle: OracleVerdict, candidate: CompatVerdict) -> Option<
    Mismatch,
> {
    match (candidate, oracle) {
        (CompatVerdict::Valid, OracleVerdict::Valid) => None,
        (CompatVerdict::Valid, OracleVerdict::Invalid { .. }) => Some(Mismatch::AcceptedInvalid),
        (CompatVerdict::Invalid { .. }, OracleVerdict::Valid) => Some(Mismatch::RejectedValid),
        (
            CompatVerdict::Invalid { valid_up_to: found_up_to, error_len: found_len },
            OracleVerdict::Invalid { valid_up_to, error_len },
        ) => {
            if found_up_to == valid_up_to && found_len == error_len {
                None
            } else {
                Some(Mismatch::Location)
            }
        },
    }
}

/// A check passes where there is no disagreement and fails with the disagreement
/// where there is one.
pub open spec fn outcome(disagreement: Option<Mismatch>) -> Result<(), Mismatch> {
    match disagreement {
        None => Ok(()),
        Some(kind) => Err(kind),
    }
}

/// Holds the verdict of a validator that locates its failures against the verdict of
/// the reference decoder.
///
/// The check passes exactly when both accept, or both reject with the same offset and
/// the same length of the invalid run. Any difference in validity fails it, and the
/// error says which side accepted.
pub fn check_compat_simd_res(std_res: OracleVerdict, simd_res: CompatVerdict) -> (res: Result<
    (),
    Mismatch,
>)
    ensures
        res == outcome(compat_disagreement(std_res, simd_res)),
        (std_res is Valid) != (simd_res is Valid) ==> res is Err,
        std_res is Valid && simd_res is Valid ==> res is Ok,
        std_res is Invalid && simd_res is Invalid ==> (res is Ok <==> simd_res->valid_up_to
            == std_res->valid_up_to && simd_res->error_len == std_res->error_len),
        res is Ok <==> simd_res == CompatVerdict::mirror(std_res),
        res == Err::<(), Mismatch>(Mismatch::AcceptedInvalid) <==> std_res is Invalid
            && simd_res is Valid,
        res == Err::<(), Mismatch>(Mismatch::RejectedValid) <==> std_res is Valid
            && simd_res is Invalid,
        res == Err::<(), Mismatch>(Mismatch::Location) <==> std_res is Invalid
            && simd_res is Invalid && simd_res != CompatVerdict::mirror(std_res),
{
    match (simd_res, std_res) {
        (CompatVerdict::Valid, OracleVerdict::Valid) => Ok(()),
        (CompatVerdict::Valid, OracleVerdict::Invalid { .. }) => Err(Mismatch::AcceptedInvalid),
        (CompatVerdict::Invalid { .. }, OracleVerdict::Valid) => Err(Mismatch::RejectedValid),
        (
            CompatVerdict::Invalid { valid_up_to: simd_up_to, error_len: simd_len },
            OracleVerdict::Invalid { valid_up_to: std_up_to, error_len: std_len },
        ) => {
            if simd_up_to == std_up_to && simd_len == std_len {
                Ok(())
            } else {
                Err(Mismatch::Location)
            }
        },
    }
}

/// Holds the verdict of a validator that only accepts or rejects against the verdict
/// of the reference decoder.
///
/// The check passes exactly when both say the same of the validity of the bytes. Where
/// the decoder located a failure, the location plays no part.
pub fn check_basic_simd_res(std_res: OracleVerdict, simd_res: BasicVerdict) -> (res: Result<
    (),
    Mismatch,
>)
    ensures
        res == outcome(basic_disagreement(std_res, simd_res)),
        res is Ok <==> (std_res is Valid) == (simd_res is Valid),
        res == Err::<(), Mismatch>(Mismatch::AcceptedInvalid) <==> std_res is Invalid
            && simd_res is Valid,
        res == Err::<(), Mismatch>(Mismatch::RejectedValid) <==> std_res is Valid
            && simd_res is Invalid,
{
    if std_res.is_valid() == simd_res.is_valid() {
        Ok(())
    } else if simd_res.is_valid() {
        Err(Mismatch::AcceptedInvalid)
    } else {
        Err(Mismatch::RejectedValid)
    }
}

/// A validator that passes the location-reporting check on some bytes would also pass
/// the accept/reject check on them, had it reported its validity alone; and one that
/// fails the accept/reject check fails the location-reporting check in the same way.
pub proof fn lemma_compat_agreement_implies_basic(oracle: OracleVerdict, candidate: CompatVerdict)
    ensures
        compat_disagreement(oracle, candidate) is None ==> basic_disagreement(
            oracle,
            BasicVerdict::of(candidate is Valid),
        ) is None,
        basic_disagreement(oracle, BasicVerdict::of(candidate is Valid)) matches Some(kind)
            ==> compat_disagreement(oracle, candidate) == Some(kind),
{
}

/// A validator that reports exactly what the reference decoder reports passes both
/// checks, whatever the decoder found.
pub proof fn lemma_mirror_agrees(oracle: OracleVerdict)
    ensures
        compat_disagreement(oracle, CompatVerdict::mirror(oracle)) is None,
        basic_disagreement(oracle, BasicVerdict::of(oracle is Valid)) is None,
{
}

} // verus!

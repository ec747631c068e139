//! The driver: one input, one verdict of the reference decoder, and every validator
//! held against it in both of its reporting modes.
//!
//! The checks stop at the first disagreement and hand it back with what is needed to
//! replay it: the input, which backend, in which mode, what the oracle said and what
//! the validator said.

use crate::candidate::{basic_accepts, basic_reported, compat_outcome, compat_reported};
use crate::compare::{
    basic_disagreement, check_basic_simd_res, check_compat_simd_res, compat_disagreement,
    outcome, Mismatch,
};
use crate::oracle::{classify, oracle_verdict};
use crate::verdict::{normalize_basic, normalize_compat, BasicVerdict, CompatVerdict, OracleVerdict};
use vstd::prelude::*;
use vstd::slice::slice_to_vec;

verus! {

/// Names the implementation of the validator that produced a verdict. It is a tag for
/// reports and changes nothing in how a verdict is judged.
#[derive(Clone, Copy, Debug, PartialEq, Eq, Structural)]
pub enum Backend {
    /// Whatever implementation the validator selects by itself for the running
    /// machine.
    Detected,
    /// The implementation for 256-bit AVX 2 registers.
    Avx2,
    /// The implementation for 128-bit SSE 4.2 registers.
    Sse42,
}

/// The two ways in which a validator reports.
#[derive(Clone, Copy, Debug, PartialEq, Eq, Structural)]
pub enum Mode {
    /// Accept or reject, nothing more.
    Basic,
    /// Accept, or reject with the location of the failure.
    Compat,
}

/// The verdict of a validator in either reporting mode.
#[derive(Clone, Copy, Debug, PartialEq, Eq, Structural)]
pub enum CandidateVerdict {
    /// A verdict without location.
    Basic(BasicVerdict),
    /// A verdict with location.
    Compat(CompatVerdict),
}

/// What one backend said of one input, in both reporting modes. A backend cannot be
/// recorded in one mode only.
#[derive(Clone, Copy, Debug, PartialEq, Eq, Structural)]
pub struct Observation {
    /// The backend that was run.
    pub backend: Backend,
    /// Its verdict in the accept/reject mode.
    pub basic: BasicVerdict,
    /// Its verdict in the location-reporting mode.
    pub compat: CompatVerdict,
}

/// A disagreement between a validator and the reference decoder on one input.
#[derive(Clone, Copy, Debug, PartialEq, Eq, Structural)]
pub struct Failure {
    /// The backend that disagreed.
    pub backend: Backend,
    /// What the reference decoder said.
    pub oracle: OracleVerdict,
    /// What the validator said; the variant tells the reporting mode.
    pub candidate: CandidateVerdict,
    /// The kind of disagreement.
    pub kind: Mismatch,
}

/// A failure together with the input on which it came about: what it takes to replay
/// the disagreement.
#[derive(Debug, PartialEq, Eq)]
pub struct Counterexample {
    /// The bytes on which the backend disagreed with the reference decoder.
    pub input: Vec<u8>,
    /// The disagreement.
    pub failure: Failure,
}

impl Failure {
    /// The reporting mode in which the backend disagreed.
    pub fn mode(&self) -> (mode: Mode)
        ensures
            mode == self.candidate.spec_mode(),
    {
        self.candidate.mode()
    }
}

impl CandidateVerdict {
    /// The reporting mode that the verdict came from.
    pub open spec fn spec_mode(self) -> Mode {
        match self {
            CandidateVerdict::Basic(_) => Mode::Basic,
            CandidateVerdict::Compat(_) => Mode::Compat,
        }
    }

    /// The reporting mode that the verdict came from.
    pub fn mode(&self) -> (mode: Mode)
        ensures
            mode == self.spec_mode(),
    {
        match self {
            CandidateVerdict::Basic(_) => Mode::Basic,
            CandidateVerdict::Compat(_) => Mode::Compat,
        }
    }
}

/// The backends to exercise on a machine, in the order in which they are run: the
/// validator's own choice first, then each instruction set that the machine has, the
/// wider one before the narrower.
pub open spec fn registered(avx2: bool, sse42: bool) -> Seq<Backend> {
    seq![Backend::Detected] + (if avx2 {
        seq![Backend::Avx2]
    } else {
        Seq::empty()
    }) + (if sse42 {
        seq![Backend::Sse42]
    } else {
        Seq::empty()
    })
}

/// Every backend of `backends` was observed, once and in the same order, and nothing
/// else was.
pub open spec fn covers(observations: Seq<Observation>, backends: Seq<Backend>) -> bool {
    &&& observations.len() == backends.len()
    &&& forall|i: int|
        0 <= i < backends.len() ==> (#[trigger] observations[i]).backend == backends[i]
}

/// The disagreement, if any, between the reference decoder and a validator, judged by
/// the rule of the mode in which the validator reported.
pub open spec fn disagreement(oracle: OracleVerdict, candidate: CandidateVerdict) -> Option<
    Mismatch,
> {
    match candidate {
        CandidateVerdict::Basic(verdict) => basic_disagreement(oracle, verdict),
        CandidateVerdict::Compat(verdict) => compat_disagreement(oracle, verdict),
    }
}

/// The failure, if any, of one backend: its accept/reject verdict is judged first,
/// its location-reporting verdict second.
pub open spec fn failure_of(oracle: OracleVerdict, observation: Observation) -> Option<Failure> {
    match basic_disagreement(oracle, observation.basic) {
        Some(kind) => Some(
            Failure {
                backend: observation.backend,
                oracle,
                candidate: CandidateVerdict::Basic(observation.basic),
                kind,
            },
        ),
        None => match compat_disagreement(oracle, observation.compat) {
            Some(kind) => Some(
                Failure {
                    backend: observation.backend,
                    oracle,
                    candidate: CandidateVerdict::Compat(observation.compat),
                    kind,
                },
            ),
            None => None,
        },
    }
}

/// The failure of the first backend, in the order given, that disagrees with the
/// reference decoder; `None` where all of them agree in both modes.
pub open spec fn first_failure(oracle: OracleVerdict, observations: Seq<Observation>) -> Option<
    Failure,
>
    decreases observations.len(),
{
    if observations.len() == 0 {
        None
    } else {
        match failure_of(oracle, observations[0]) {
            Some(failure) => Some(failure),
            None => first_failure(oracle, observations.drop_first()),
        }
    }
}

/// The backend at index `at` fails with `failure`, and every backend before it passes.
pub open spec fn fails_first_at(
    oracle: OracleVerdict,
    observations: Seq<Observation>,
    at: int,
    failure: Failure,
) -> bool {
    &&& 0 <= at < observations.len()
    &&& failure_of(oracle, observations[at]) == Some(failure)
    &&& forall|j: int| 0 <= j < at ==> failure_of(oracle, #[trigger] observations[j]) is None
}

/// A backend agrees with the oracle in both of its reporting modes.
pub open spec fn agrees(oracle: OracleVerdict, observation: Observation) -> bool {
    &&& basic_disagreement(oracle, observation.basic) is None
    &&& compat_disagreement(oracle, observation.compat) is None
}

/// What the validators selected for this machine report of `bytes`, in both modes
/// and normalized.
pub open spec fn observed(bytes: Seq<u8>) -> Observation {
    Observation {
        backend: Backend::Detected,
        basic: BasicVerdict::of(basic_reported(bytes)),
        compat: CompatVerdict::of(compat_reported(bytes)),
    }
}

/// A run passes where no backend failed and fails with the first failure otherwise.
pub open spec fn report(failure: Option<Failure>) -> Result<(), Failure> {
    match failure {
        None => Ok(()),
        Some(failure) => Err(failure),
    }
}

/// Routes a verdict to the comparator of its reporting mode.
pub fn check(oracle: OracleVerdict, candidate: CandidateVerdict) -> (res: Result<(), Mismatch>)
    ensures
        res == outcome(disagreement(oracle, candidate)),
{
    match candidate {
        CandidateVerdict::Basic(verdict) => check_basic_simd_res(oracle, verdict),
        CandidateVerdict::Compat(verdict) => check_compat_simd_res(oracle, verdict),
    }
}

/// Holds both verdicts of one backend against the verdict of the reference decoder.
///
/// The result is `Ok` exactly when the backend agrees with the oracle in both modes.
/// Otherwise the failure names the backend, carries the oracle's verdict and the
/// verdict that disagreed, and is that of the accept/reject mode where both modes
/// disagree.
pub fn check_observation(oracle: OracleVerdict, observation: &Observation) -> (res: Result<
    (),
    Failure,
>)
    ensures
        res == report(failure_of(oracle, *observation)),
        res is Ok <==> agrees(oracle, *observation),
        res matches Err(failure) ==> failure.backend == observation.backend,
        res matches Err(failure) ==> failure.oracle == oracle,
        res matches Err(failure) ==> disagreement(oracle, failure.candidate) == Some(failure.kind),
{
    let basic = CandidateVerdict::Basic(observation.basic);
    let compat = CandidateVerdict::Compat(observation.compat);
    match check(oracle, basic) {
        Err(kind) => Err(Failure { backend: observation.backend, oracle, candidate: basic, kind }),
        Ok(_) => match check(oracle, compat) {
            Err(kind) => Err(
                Failure { backend: observation.backend, oracle, candidate: compat, kind },
            ),
            Ok(_) => Ok(()),
        },
    }
}

/// Holds every observation, in the order given, against the verdict of the reference
/// decoder and stops at the first that disagrees.
///
/// The result is `Ok` exactly when every backend agrees with the oracle in both modes;
/// otherwise it is the failure of the first backend that does not.
pub fn check_all(oracle: OracleVerdict, observations: &[Observation]) -> (res: Result<(), Failure>)
    ensures
        res == report(first_failure(oracle, observations@)),
        res is Ok <==> forall|i: int|
            0 <= i < observations@.len() ==> agrees(oracle, #[trigger] observations@[i]),
        res matches Err(failure) ==> exists|at: int|
            fails_first_at(oracle, observations@, at, failure),
{
    assert(observations@.skip(0) =~= observations@);
    let mut at: usize = 0;
    while at < observations.len()
        invariant
            at <= observations@.len(),
            first_failure(oracle, observations@) == first_failure(
                oracle,
                observations@.skip(at as int),
            ),
            forall|j: int| 0 <= j < at ==> agrees(oracle, #[trigger] observations@[j]),
        decreases observations@.len() - at,
    {
        let ghost rest = observations@.skip(at as int);
        assert(rest.drop_first() =~= observations@.skip(at + 1));
        match check_observation(oracle, &observations[at]) {
            Err(failure) => {
                assert(fails_first_at(oracle, observations@, at as int, failure));
                return Err(failure);
            },
            Ok(_) => {},
        }
        at = at + 1;
    }
    Ok(())
}

/// Lists the backends to exercise on a machine of which it is known whether it has
/// AVX 2 and whether it has SSE 4.2. A backend is listed only where the machine
/// supports it: running one on a machine that lacks its instructions is not defined.
pub fn registry(avx2: bool, sse42: bool) -> (backends: Vec<Backend>)
    ensures
        backends@ == registered(avx2, sse42),
{
    let mut backends: Vec<Backend> = Vec::new();
    backends.push(Backend::Detected);
    if avx2 {
        backends.push(Backend::Avx2);
    }
    if sse42 {
        backends.push(Backend::Sse42);
    }
    backends
}

/// Tells whether `observations` holds one observation of each backend of `backends`,
/// in the same order, and no other.
pub fn is_complete(observations: &[Observation], backends: &[Backend]) -> (complete: bool)
    ensures
        complete == covers(observations@, backends@),
{
    if observations.len() != backends.len() {
        return false;
    }
    let mut at: usize = 0;
    while at < backends.len()
        invariant
            at <= backends@.len(),
            observations@.len() == backends@.len(),
            forall|i: int| 0 <= i < at ==> (#[trigger] observations@[i]).backend == backends@[i],
        decreases backends@.len() - at,
    {
        if observations[at].backend != backends[at] {
            return false;
        }
        at = at + 1;
    }
    true
}

/// Runs, on `bytes`, the validators that the validator crate selects for this machine,
/// once in each reporting mode, and normalizes what they report.
///
/// An input shorter than `SHORT_INPUT` is answered as the reference decoder answers
/// it. Whether the reports on a longer input are right is the claim under test.
pub fn observe(bytes: &[u8]) -> (observation: Observation)
    ensures
        observation == observed(bytes@),
        observation.backend == Backend::Detected,
        bytes@.len() < SHORT_INPUT ==> observation.basic == BasicVerdict::of(
            vstd::utf8::valid_utf8(bytes@),
        ),
        bytes@.len() < SHORT_INPUT ==> observation.compat == CompatVerdict::mirror(
            oracle_verdict(bytes@),
        ),
        bytes@.len() < SHORT_INPUT ==> agrees(oracle_verdict(bytes@), observation),
{
    let basic = normalize_basic(basic_accepts(bytes));
    let compat = normalize_compat(compat_outcome(bytes));
    Observation { backend: Backend::Detected, basic, compat }
}

/// Checks one input against verdicts that backends gave on it: classifies the input
/// once with the reference decoder and holds every observation, in the order given,
/// against the oracle's verdict.
///
/// The result is `Ok` exactly when every backend agrees with the oracle in both
/// modes. Otherwise it is the failure of the first backend that does not, together
/// with the bytes of the input.
pub fn check_input(bytes: &[u8], observations: &[Observation]) -> (res: Result<
    (),
    Counterexample,
>)
    ensures
        res is Ok <==> first_failure(oracle_verdict(bytes@), observations@) is None,
        res matches Err(found) ==> found.input@ == bytes@,
        res matches Err(found) ==> Some(found.failure) == first_failure(
            oracle_verdict(bytes@),
            observations@,
        ),
{
    let oracle = classify(bytes);
    match check_all(oracle, observations) {
        Ok(_) => Ok(()),
        Err(failure) => Err(Counterexample { input: slice_to_vec(bytes), failure }),
    }
}

/// Checks one input: classifies it once with the reference decoder, runs the
/// validators selected for this machine in both reporting modes, and holds each
/// verdict against the oracle's.
///
/// The result is `Ok` exactly when the validators agree with the oracle in both
/// modes, which they do on every input shorter than `SHORT_INPUT`. Otherwise it is
/// their failure, that of the accept/reject mode first, with the bytes of the input.
pub fn run(bytes: &[u8]) -> (res: Result<(), Counterexample>)
    ensures
        res is Ok <==> failure_of(oracle_verdict(bytes@), observed(bytes@)) is None,
        res matches Err(found) ==> found.input@ == bytes@,
        res matches Err(found) ==> Some(found.failure) == failure_of(
            oracle_verdict(bytes@),
            observed(bytes@),
        ),
        bytes@.len() < SHORT_INPUT ==> res is Ok,
{
    let oracle = classify(bytes);
    let observation = observe(bytes);
    match check_observation(oracle, &observation) {
        Ok(_) => Ok(()),
        Err(failure) => Err(Counterexample { input: slice_to_vec(bytes), failure }),
    }
}

/// What the validators report depends on the bytes alone: two sequences of the same
/// bytes get the same observation, and so the same result of a run, wherever they are
/// stored and however often they are checked.
pub proof fn lemma_same_bytes_same_observation(first: Seq<u8>, second: Seq<u8>)
    requires
        first.len() == second.len(),
        forall|i: int| 0 <= i < first.len() ==> first[i] == second[i],
    ensures
        observed(first) == observed(second),
        failure_of(oracle_verdict(first), observed(first)) == failure_of(
            oracle_verdict(second),
            observed(second),
        ),
{
    assert(first =~= second);
}

/// The length from which on the validators selected for this machine may run
/// vectorized code, which works on blocks of this many bytes. A shorter input they
/// hand to the decoder of the standard library.
pub const SHORT_INPUT: usize = 64;

/// The registry is gated by what the machine supports: the validator's own choice is
/// always listed, and a backend for an instruction set exactly where the machine has
/// that instruction set.
pub proof fn lemma_registry_is_gated(avx2: bool, sse42: bool)
    ensures
        registered(avx2, sse42).contains(Backend::Detected),
        registered(avx2, sse42).contains(Backend::Avx2) <==> avx2,
        registered(avx2, sse42).contains(Backend::Sse42) <==> sse42,
{
    let backends = registered(avx2, sse42);
    assert(backends[0] == Backend::Detected);
    if avx2 {
        assert(backends[1] == Backend::Avx2);
    }
    if sse42 {
        assert(backends[backends.len() - 1] == Backend::Sse42);
    }
}

/// The first failure is that of some backend before which every backend passed, and
/// there is none exactly when every backend agrees with the oracle in both modes.
pub proof fn lemma_first_failure(oracle: OracleVerdict, observations: Seq<Observation>)
    ensures
        first_failure(oracle, observations) is None <==> forall|i: int|
            0 <= i < observations.len() ==> agrees(oracle, #[trigger] observations[i]),
        first_failure(oracle, observations) matches Some(failure) ==> exists|at: int|
            fails_first_at(oracle, observations, at, failure),
    decreases observations.len(),
{
    if observations.len() > 0 {
        let rest = observations.drop_first();
        lemma_first_failure(oracle, rest);
        assert forall|i: int| 0 < i < observations.len() implies rest[i - 1]
            == #[trigger] observations[i] by {}
        if failure_of(oracle, observations[0]) is Some {
            let failure = failure_of(oracle, observations[0])->Some_0;
            assert(!agrees(oracle, observations[0]));
            assert(fails_first_at(oracle, observations, 0, failure));
        } else if first_failure(oracle, rest) is Some {
            let failure = first_failure(oracle, rest)->Some_0;
            let at = choose|at: int| fails_first_at(oracle, rest, at, failure);
            assert(observations[at + 1] == rest[at]);
            assert(!agrees(oracle, observations[at + 1]));
            assert forall|j: int| 0 <= j < at + 1 implies failure_of(
                oracle,
                #[trigger] observations[j],
            ) is None by {
                if j > 0 {
                    assert(rest[j - 1] == observations[j]);
                }
            }
            assert(fails_first_at(oracle, observations, at + 1, failure));
        } else {
            assert forall|i: int| 0 <= i < observations.len() implies agrees(
                oracle,
                #[trigger] observations[i],
            ) by {
                if i > 0 {
                    assert(agrees(oracle, rest[i - 1]));
                }
            }
        }
    }
}

/// Where the observations cover the registered backends and none of them fails, every
/// registered backend was observed and agreed with the oracle in both reporting modes.
pub proof fn lemma_pass_means_every_backend_agrees(
    oracle: OracleVerdict,
    backends: Seq<Backend>,
    observations: Seq<Observation>,
)
    requires
        covers(observations, backends),
        first_failure(oracle, observations) is None,
    ensures
        forall|i: int|
            0 <= i < backends.len() ==> (#[trigger] observations[i]).backend == backends[i]
                && agrees(oracle, observations[i]),
{
    lemma_first_failure(oracle, observations);
}

} // verus!

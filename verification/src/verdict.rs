//! The verdicts that the reference decoder and the validators under test hand back.
//!
//! A validator either accepts a byte sequence or rejects it. The reference decoder and
//! the validators of the location-reporting kind also say where the well-formed prefix
//! ends and how long the offending byte run is.

use vstd::prelude::*;

verus! {

/// How far an invalid byte run reaches.
#[derive(Clone, Copy, Debug, PartialEq, Eq, Structural)]
pub enum ErrorLen {
    /// The input ended inside a multi-byte sequence: the run reaches the end of the input.
    Incomplete,
    /// The run is this many bytes long.
    Definite(usize),
}

impl ErrorLen {
    /// What a length stands for when it is reported as an `Option` in which `None`
    /// means "the input ended too early".
    pub open spec fn of(reported: Option<usize>) -> ErrorLen {
        match reported {
            None => ErrorLen::Incomplete,
            Some(n) => ErrorLen::Definite(n),
        }
    }

    /// Reads a length reported as an `Option`, where `None` means "incomplete".
    pub fn from_reported(reported: Option<usize>) -> (len: ErrorLen)
        ensures
            len == ErrorLen::of(reported),
    {
        match reported {
            None => ErrorLen::Incomplete,
            Some(n) => ErrorLen::Definite(n),
        }
    }
}

/// The authoritative judgement of the reference decoder on one byte sequence.
#[derive(Clone, Copy, Debug, PartialEq, Eq, Structural)]
pub enum OracleVerdict {
    /// The sequence is well-formed UTF-8.
    Valid,
    /// The sequence is malformed.
    Invalid {
        /// Offset of the first byte that is not part of the well-formed prefix.
        valid_up_to: usize,
        /// Length of the invalid run that starts at `valid_up_to`.
        error_len: ErrorLen,
    },
}

/// What a validator reports that tells valid from invalid and nothing more.
#[derive(Clone, Copy, Debug, PartialEq, Eq, Structural)]
pub enum BasicVerdict {
    /// The validator accepted the sequence.
    Valid,
    /// The validator rejected the sequence.
    Invalid,
}

/// What a validator reports that also locates the failure.
#[derive(Clone, Copy, Debug, PartialEq, Eq, Structural)]
pub enum CompatVerdict {
    /// The validator accepted the sequence.
    Valid,
    /// The validator rejected the sequence.
    Invalid {
        /// Offset at which the validator says the well-formed prefix ends.
        valid_up_to: usize,
        /// Length that the validator gives for the invalid run.
        error_len: ErrorLen,
    },
}

/// The failure report of a location-reporting decoder before it is normalized: the
/// offset of the first invalid byte and the length of the invalid run, `None` standing
/// for a run that is cut off by the end of the input.
pub type RawFault = (usize, Option<usize>);

impl OracleVerdict {
    /// The failure, if any, lies inside an input of `len` bytes: the well-formed prefix
    /// stops short of the end, a definite run is not empty and ends within the input,
    /// and an incomplete run is one to three bytes long.
    pub open spec fn fits(self, len: nat) -> bool {
        match self {
            OracleVerdict::Valid => true,
            OracleVerdict::Invalid { valid_up_to, error_len } => {
                &&& valid_up_to < len
                &&& match error_len {
                    ErrorLen::Incomplete => len - valid_up_to <= 3,
                    ErrorLen::Definite(n) => 1 <= n && valid_up_to + n <= len,
                }
            },
        }
    }

    /// Whether the reference decoder accepted the sequence.
    pub fn is_valid(&self) -> (valid: bool)
        ensures
            valid == (*self is Valid),
    {
        match self {
            OracleVerdict::Valid => true,
            OracleVerdict::Invalid { .. } => false,
        }
    }

    /// The offset of the first invalid byte, where the sequence was rejected.
    pub fn valid_up_to(&self) -> (offset: Option<usize>)
        ensures
            offset is Some <==> *self is Invalid,
            offset matches Some(at) ==> at == self->valid_up_to,
    {
        match self {
            OracleVerdict::Valid => None,
            OracleVerdict::Invalid { valid_up_to, .. } => Some(*valid_up_to),
        }
    }

    /// The length of the invalid run, where the sequence was rejected.
    pub fn error_len(&self) -> (len: Option<ErrorLen>)
        ensures
            len is Some <==> *self is Invalid,
            len matches Some(run) ==> run == self->error_len,
    {
        match self {
            OracleVerdict::Valid => None,
            OracleVerdict::Invalid { error_len, .. } => Some(*error_len),
        }
    }
}

impl BasicVerdict {
    /// The verdict that a bare accept/reject outcome stands for.
    pub open spec fn of(accepted: bool) -> BasicVerdict {
        if accepted {
            BasicVerdict::Valid
        } else {
            BasicVerdict::Invalid
        }
    }

    /// Whether the validator accepted the sequence.
    pub fn is_valid(&self) -> (valid: bool)
        ensures
            valid == (*self is Valid),
    {
        match self {
            BasicVerdict::Valid => true,
            BasicVerdict::Invalid => false,
        }
    }
}

impl CompatVerdict {
    /// The verdict that a raw validation outcome stands for.
    pub open spec fn of(outcome: Result<(), RawFault>) -> CompatVerdict {
        match outcome {
            Ok(_) => CompatVerdict::Valid,
            Err(fault) => CompatVerdict::Invalid {
                valid_up_to: fault.0,
                error_len: ErrorLen::of(fault.1),
            },
        }
    }

    /// The verdict of a validator that reports exactly what the reference decoder does.
    pub open spec fn mirror(oracle: OracleVerdict) -> CompatVerdict {
        match oracle {
            OracleVerdict::Valid => CompatVerdict::Valid,
            OracleVerdict::Invalid { valid_up_to, error_len } => CompatVerdict::Invalid {
                valid_up_to,
                error_len,
            },
        }
    }

    /// Whether the validator accepted the sequence.
    pub fn is_valid(&self) -> (valid: bool)
        ensures
            valid == (*self is Valid),
    {
        match self {
            CompatVerdict::Valid => true,
            CompatVerdict::Invalid { .. } => false,
        }
    }

    /// The offset that the validator gave for the first invalid byte, where it
    /// rejected the sequence.
    pub fn valid_up_to(&self) -> (offset: Option<usize>)
        ensures
            offset is Some <==> *self is Invalid,
            offset matches Some(at) ==> at == self->valid_up_to,
    {
        match self {
            CompatVerdict::Valid => None,
            CompatVerdict::Invalid { valid_up_to, .. } => Some(*valid_up_to),
        }
    }

    /// The length that the validator gave for the invalid run, where it rejected the
    /// sequence.
    pub fn error_len(&self) -> (len: Option<ErrorLen>)
        ensures
            len is Some <==> *self is Invalid,
            len matches Some(run) ==> run == self->error_len,
    {
        match self {
            CompatVerdict::Valid => None,
            CompatVerdict::Invalid { error_len, .. } => Some(*error_len),
        }
    }
}

/// Puts the outcome of a validator that only accepts or rejects into comparable form.
pub fn normalize_basic(accepted: bool) -> (verdict: BasicVerdict)
    ensures
        verdict == BasicVerdict::of(accepted),
        (verdict is Valid) == accepted,
{
    if accepted {
        BasicVerdict::Valid
    } else {
        BasicVerdict::Invalid
    }
}

/// Puts the outcome of a validator that locates its failures into comparable form.
pub fn normalize_compat(outcome: Result<(), RawFault>) -> (verdict: CompatVerdict)
    ensures
        verdict == CompatVerdict::of(outcome),
        (verdict is Valid) == (outcome is Ok),
{
    match outcome {
        Ok(_) => CompatVerdict::Valid,
        Err(fault) => CompatVerdict::Invalid {
            valid_up_to: fault.0,
            error_len: ErrorLen::from_reported(fault.1),
        },
    }
}

} // verus!

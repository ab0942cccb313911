//! The outcome of one rate-limit check.

use vstd::prelude::*;

verus! {

/// Status code with which the service declines to decide.
pub const CODE_UNKNOWN: i32 = 0;

/// Status code of a request that is within its limit.
pub const CODE_OK: i32 = 1;

/// Status code of a request that is over its limit.
pub const CODE_OVER_LIMIT: i32 = 2;

/// What the service answered to one request.
#[derive(Clone, Copy, Debug, PartialEq, Eq, Structural)]
pub enum Outcome {
    Okay,
    OverLimit,
    Unknown,
}

/// A status code that the service's protocol does not define.
#[derive(Clone, Copy, Debug, PartialEq, Eq, Structural)]
pub struct InvalidCode {
    pub code: i32,
}

/// The outcome that a status code stands for, if it stands for one.
pub open spec fn outcome_of(code: int) -> Option<Outcome> {
    if code == CODE_OK {
        Some(Outcome::Okay)
    } else if code == CODE_OVER_LIMIT {
        Some(Outcome::OverLimit)
    } else if code == CODE_UNKNOWN {
        Some(Outcome::Unknown)
    } else {
        None
    }
}

/// Whether the protocol defines `code`.
pub open spec fn is_legal_code(code: int) -> bool {
    CODE_UNKNOWN <= code <= CODE_OVER_LIMIT
}

/// Every code of the protocol stands for exactly one outcome, and a code
/// outside the protocol stands for none.
pub proof fn lemma_codes_and_outcomes(code: int)
    ensures
        is_legal_code(code) <==> outcome_of(code) is Some,
        outcome_of(code) == Some(Outcome::Okay) <==> code == CODE_OK,
        outcome_of(code) == Some(Outcome::OverLimit) <==> code == CODE_OVER_LIMIT,
        outcome_of(code) == Some(Outcome::Unknown) <==> code == CODE_UNKNOWN,
{
}

/// Maps a raw status code to its outcome. A code outside the protocol's range
/// is handed back in the error; it is never read as some outcome.
pub fn classify(code: i32) -> (r: Result<Outcome, InvalidCode>)
    ensures
        is_legal_code(code as int) <==> r is Ok,
        r == match outcome_of(code as int) {
            Some(o) => Ok::<Outcome, InvalidCode>(o),
            None => Err::<Outcome, InvalidCode>(InvalidCode { code }),
        },
{
    if code == CODE_OK {
        Ok(Outcome::Okay)
    } else if code == CODE_OVER_LIMIT {
        Ok(Outcome::OverLimit)
    } else if code == CODE_UNKNOWN {
        Ok(Outcome::Unknown)
    } else {
        Err(InvalidCode { code })
    }
}

} // verus!

//! The verified part of an iteration record: its number, the validation, and
//! the delta that remains for the next iteration.

use vstd::prelude::*;
use crate::verify::VerifyResult;

verus! {

/// What one iteration of a run ended with.
#[derive(Debug, Clone, PartialEq, Eq)]
pub struct IterationOutcome {
    pub iteration: usize,
    pub validation: VerifyResult,
    pub remaining_delta: Vec<String>,
}

} // verus!

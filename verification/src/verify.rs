//! The outcome of a verification command.

use vstd::prelude::*;

verus! {

/// What a shell command returned: whether it exited with status zero, its
/// exit code, and its captured output.
#[derive(Debug, Clone, PartialEq, Eq)]
pub struct VerifyResult {
    pub passed: bool,
    pub returncode: i32,
    pub stdout: String,
    pub stderr: String,
}

impl VerifyResult {
    /// A copy of this result.
    pub fn duplicate(&self) -> (r: VerifyResult)
        ensures
            r == *self,
    {
        VerifyResult {
            passed: self.passed,
            returncode: self.returncode,
            stdout: self.stdout.clone(),
            stderr: self.stderr.clone(),
        }
    }
}

} // verus!

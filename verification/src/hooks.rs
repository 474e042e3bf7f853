//! Lifecycle hook configuration, hook audits, and the rule for required hooks.

use vstd::prelude::*;
use crate::text::{push_signed_decimal, signed_decimal, string_of};
use crate::util::{copy_opt, opt_view};
use crate::verify::VerifyResult;

verus! {

/// The shell commands run at the five lifecycle events of a run.
#[derive(Debug, Clone, Default, PartialEq, Eq)]
pub struct HooksConfig {
    pub pre_run: Option<String>,
    pub post_iteration: Option<String>,
    pub pre_apply: Option<String>,
    pub post_apply: Option<String>,
    pub on_failure: Option<String>,
}

/// The name of the `k`-th lifecycle event, in the order `commands` lists them.
pub open spec fn hook_name(k: int) -> Seq<char> {
    if k == 0 {
        "pre_run"@
    } else if k == 1 {
        "post_iteration"@
    } else if k == 2 {
        "pre_apply"@
    } else if k == 3 {
        "post_apply"@
    } else {
        "on_failure"@
    }
}

/// The command configured for the `k`-th lifecycle event.
pub open spec fn hook_command(h: HooksConfig, k: int) -> Option<String> {
    if k == 0 {
        h.pre_run
    } else if k == 1 {
        h.post_iteration
    } else if k == 2 {
        h.pre_apply
    } else if k == 3 {
        h.post_apply
    } else {
        h.on_failure
    }
}

/// The view of an optional string slice.
pub open spec fn opt_str_view(o: Option<&str>) -> Option<Seq<char>> {
    match o {
        Some(s) => Some(s@),
        None => None,
    }
}

fn opt_as_str(o: &Option<String>) -> (r: Option<&str>)
    ensures
        opt_str_view(r) == opt_view(*o),
{
    match o {
        Some(s) => Some(s.as_str()),
        None => None,
    }
}

impl HooksConfig {
    /// A copy of this configuration.
    pub fn duplicate(&self) -> (r: HooksConfig)
        ensures
            r == *self,
    {
        HooksConfig {
            pre_run: copy_opt(&self.pre_run),
            post_iteration: copy_opt(&self.post_iteration),
            pre_apply: copy_opt(&self.pre_apply),
            post_apply: copy_opt(&self.post_apply),
            on_failure: copy_opt(&self.on_failure),
        }
    }

    /// Each lifecycle event's name with its configured command, in the order
    /// `pre_run`, `post_iteration`, `pre_apply`, `post_apply`, `on_failure`.
    pub fn commands(&self) -> (r: [(&'static str, Option<&str>); 5])
        ensures
            forall|k: int|
                0 <= k < 5 ==> (#[trigger] r@[k]).0@ == hook_name(k) && opt_str_view(r@[k].1)
                    == opt_view(hook_command(*self, k)),
    {
        [
            ("pre_run", opt_as_str(&self.pre_run)),
            ("post_iteration", opt_as_str(&self.post_iteration)),
            ("pre_apply", opt_as_str(&self.pre_apply)),
            ("post_apply", opt_as_str(&self.post_apply)),
            ("on_failure", opt_as_str(&self.on_failure)),
        ]
    }
}

/// The audit written for one hook run: which event, which command, and what it returned.
#[derive(Debug, Clone, PartialEq, Eq)]
pub struct HookAudit {
    pub event: String,
    pub command: String,
    pub result: VerifyResult,
}

/// The audit of running `command` for `event` with outcome `result`.
pub fn hook_audit(event: &str, command: &str, result: &VerifyResult) -> (a: HookAudit)
    ensures
        a.event@ == event@,
        a.command@ == command@,
        a.result == *result,
{
    HookAudit { event: string_of(event), command: string_of(command), result: result.duplicate() }
}

/// A required hook that exited with a non-zero status.
#[derive(Debug, Clone, PartialEq, Eq)]
pub struct HookFailure {
    pub event: String,
    pub returncode: i32,
}

/// The text of a hook failure: `"<event> hook failed with status <code>"`.
pub open spec fn hook_failure_text(event: Seq<char>, returncode: int) -> Seq<char> {
    event + " hook failed with status "@ + signed_decimal(returncode)
}

impl HookFailure {
    /// The message that reports this failure.
    pub fn message(&self) -> (m: String)
        ensures
            m@ == hook_failure_text(self.event@, self.returncode as int),
    {
        let mut m = string_of(self.event.as_str());
        m.append(" hook failed with status ");
        push_signed_decimal(&mut m, self.returncode);
        m
    }
}

/// The rule for a required hook: its run must pass, or the step it guards stops.
pub fn require_hook_passed(event: &str, result: VerifyResult) -> (r: Result<
    VerifyResult,
    HookFailure,
>)
    ensures
        result.passed ==> r == Ok::<VerifyResult, HookFailure>(result),
        !result.passed ==> (r matches Err(f) && f.event@ == event@ && f.returncode
            == result.returncode),
{
    if result.passed {
        Ok(result)
    } else {
        Err(HookFailure { event: string_of(event), returncode: result.returncode })
    }
}

} // verus!

//! The decisions of the review, repair and verify loop.
//!
//! The loop itself alternates with outside work (running agents, commands and
//! writing files); each decision it takes between two such steps is a function
//! here, from the loop's state and what the step returned, to the next state and
//! what to do next.

use vstd::prelude::*;
use vstd::string::*;
use crate::config::{LoopConfig, ReviewAgentConfig};
use crate::record::IterationOutcome;
use crate::run_state::{RunManifest, RunStatus};
use crate::text::{
    blank, decimal, is_blank, push_decimal, push_signed_decimal, signed_decimal, string_of, trim,
    trimmed,
};
use crate::util::copy_opt;
use crate::verify::VerifyResult;

verus! {

/// What a finished loop reports.
#[derive(Debug, Clone, PartialEq, Eq)]
pub struct LoopSummary {
    pub run_id: String,
    pub run_dir: String,
    pub passed: bool,
    pub iterations: usize,
    pub final_record_path: Option<String>,
    pub final_artifact_path: Option<String>,
    pub summary_path: Option<String>,
}

/// Whether the loop stops after an iteration: validation passed, the last
/// iteration ran, or no delta remains to repair.
pub open spec fn stops(
    iteration: int,
    max_iterations: int,
    validation_passed: bool,
    remaining_delta_len: int,
) -> bool {
    validation_passed || iteration >= max_iterations || remaining_delta_len == 0
}

/// Whether the loop stops after `iteration`.
pub fn should_stop(
    iteration: usize,
    max_iterations: usize,
    validation_passed: bool,
    remaining_delta: &[String],
) -> (r: bool)
    ensures
        r == stops(
            iteration as int,
            max_iterations as int,
            validation_passed,
            remaining_delta@.len() as int,
        ),
{
    validation_passed || iteration >= max_iterations || remaining_delta.len() == 0
}

/// The path of an iteration's record, relative to the runs directory.
pub open spec fn record_rel_path(run_id: Seq<char>, iteration: nat) -> Seq<char> {
    run_id + "/iteration_"@ + decimal(iteration) + "/record.json"@
}

/// The path of an iteration's candidate artifact, relative to the runs directory.
pub open spec fn artifact_rel_path(run_id: Seq<char>, iteration: nat, artifact: Seq<char>) -> Seq<
    char,
> {
    run_id + "/iteration_"@ + decimal(iteration) + "/workspace/"@ + artifact
}

/// The path of a run's summary, relative to the runs directory.
pub open spec fn summary_rel_path(run_id: Seq<char>) -> Seq<char> {
    run_id + "/summary.md"@
}

fn iteration_dir_rel(run_id: &str, iteration: usize) -> (s: String)
    ensures
        s@ == run_id@ + "/iteration_"@ + decimal(iteration as nat),
{
    let mut s = string_of(run_id);
    s.append("/iteration_");
    push_decimal(&mut s, iteration as u64);
    s
}

/// The path of an iteration's record, relative to the runs directory.
pub fn record_path_in_run(run_id: &str, iteration: usize) -> (s: String)
    ensures
        s@ == record_rel_path(run_id@, iteration as nat),
{
    let mut s = iteration_dir_rel(run_id, iteration);
    s.append("/record.json");
    s
}

/// The path of an iteration's candidate artifact, relative to the runs directory.
pub fn artifact_path_in_run(run_id: &str, iteration: usize, artifact: &str) -> (s: String)
    ensures
        s@ == artifact_rel_path(run_id@, iteration as nat, artifact@),
{
    let mut s = iteration_dir_rel(run_id, iteration);
    s.append("/workspace/");
    s.append(artifact);
    s
}

/// The path of a run's summary, relative to the runs directory.
pub fn summary_path_in_run(run_id: &str) -> (s: String)
    ensures
        s@ == summary_rel_path(run_id@),
{
    let mut s = string_of(run_id);
    s.append("/summary.md");
    s
}

/// The manifest of a run that starts now: the configuration's artifact, goal,
/// verify command, iteration limit and hooks, running, with no iteration yet.
pub fn start_manifest(
    config: &LoopConfig,
    run_id: String,
    source_artifact_hash: String,
    started_at_unix: u64,
) -> (m: RunManifest)
    ensures
        m.run_id == run_id,
        m.artifact == config.artifact,
        m.goal == config.goal,
        m.verify == config.verify,
        m.max_iterations == config.max_iterations,
        m.source_artifact_hash == source_artifact_hash,
        m.started_at_unix == started_at_unix,
        m.finished_at_unix is None,
        m.status == RunStatus::Running,
        m.iterations == 0,
        m.final_record_path is None,
        m.final_artifact_path is None,
        m.summary_path matches Some(p) && p@ == summary_rel_path(run_id@),
        m.hooks == config.hooks,
{
    let summary_path = summary_path_in_run(run_id.as_str());
    RunManifest {
        run_id,
        artifact: config.artifact.clone(),
        goal: config.goal.clone(),
        verify: config.verify.clone(),
        max_iterations: config.max_iterations,
        source_artifact_hash,
        started_at_unix,
        finished_at_unix: None,
        status: RunStatus::Running,
        iterations: 0,
        final_record_path: None,
        final_artifact_path: None,
        summary_path: Some(summary_path),
        hooks: config.hooks.duplicate(),
    }
}

/// The delta that a validation leaves: nothing when it passed, else its stderr,
/// or its stdout when stderr is blank.
pub open spec fn validation_delta(v: VerifyResult) -> Seq<Seq<char>> {
    if v.passed {
        seq![]
    } else if is_blank(v.stderr@) {
        seq![v.stdout@]
    } else {
        seq![v.stderr@]
    }
}

/// The texts of a list of strings.
pub open spec fn string_texts(v: Seq<String>) -> Seq<Seq<char>> {
    v.map_values(|s: String| s@)
}

/// The delta that a validation leaves for the next iteration to repair.
pub fn remaining_delta_of(validation: &VerifyResult) -> (d: Vec<String>)
    ensures
        string_texts(d@) == validation_delta(*validation),
{
    let mut d: Vec<String> = Vec::new();
    if !validation.passed {
        if blank(validation.stderr.as_str()) {
            d.push(validation.stdout.clone());
        } else {
            d.push(validation.stderr.clone());
        }
    }
    assert(string_texts(d@) =~= validation_delta(*validation));
    d
}

/// The output that explains a failed hook: its trimmed stderr, or its trimmed
/// stdout when stderr is blank.
pub open spec fn hook_output(r: VerifyResult) -> Seq<char> {
    if is_blank(r.stderr@) {
        trim(r.stdout@)
    } else {
        trim(r.stderr@)
    }
}

/// The delta a failed hook leaves: `"<event> hook failed with status <code>"`,
/// followed by `": <output>"` when the hook said anything.
pub open spec fn hook_delta_text(event: Seq<char>, r: VerifyResult) -> Seq<char> {
    let head = event + " hook failed with status "@ + signed_decimal(r.returncode as int);
    if hook_output(r).len() == 0 {
        head
    } else {
        head + ": "@ + hook_output(r)
    }
}

/// The delta a failed hook leaves.
pub fn hook_delta(event: &str, result: &VerifyResult) -> (d: String)
    ensures
        d@ == hook_delta_text(event@, *result),
{
    let output = if blank(result.stderr.as_str()) {
        trimmed(result.stdout.as_str())
    } else {
        trimmed(result.stderr.as_str())
    };
    let mut d = string_of(event);
    d.append(" hook failed with status ");
    push_signed_decimal(&mut d, result.returncode);
    if !output.as_str().is_empty() {
        d.append(": ");
        d.append(output.as_str());
    }
    d
}

/// The validation of an iteration once its `post_iteration` hook ran: a failed
/// hook fails the validation with the hook's status, appends the hook's delta to
/// stderr (on a new line when stderr already says something) and to the remaining
/// delta. A passing hook changes nothing.
pub fn merge_post_iteration_hook(
    validation: VerifyResult,
    remaining_delta: Vec<String>,
    hook: &VerifyResult,
) -> (r: (VerifyResult, Vec<String>))
    ensures
        hook.passed ==> r.0 == validation && r.1@ == remaining_delta@,
        !hook.passed ==> {
            let delta = hook_delta_text("post_iteration"@, *hook);
            &&& !r.0.passed
            &&& r.0.returncode == hook.returncode
            &&& r.0.stdout == validation.stdout
            &&& r.0.stderr@ == (if is_blank(validation.stderr@) {
                delta
            } else {
                validation.stderr@ + "\n"@ + delta
            })
            &&& string_texts(r.1@) == string_texts(remaining_delta@).push(delta)
        },
{
    if hook.passed {
        return (validation, remaining_delta);
    }
    let delta = hook_delta("post_iteration", hook);
    let stderr = if blank(validation.stderr.as_str()) {
        delta.clone()
    } else {
        let mut s = validation.stderr.clone();
        s.append("\n");
        s.append(delta.as_str());
        s
    };
    let merged = VerifyResult {
        passed: false,
        returncode: hook.returncode,
        stdout: validation.stdout,
        stderr,
    };
    let mut d = remaining_delta;
    d.push(delta);
    assert(string_texts(d@) =~= string_texts(remaining_delta@).push(
        hook_delta_text("post_iteration"@, *hook),
    ));
    (merged, d)
}

/// The state of a run between two iterations.
pub struct LoopState {
    pub manifest: RunManifest,
    pub remaining_delta: Vec<String>,
    pub stopped: bool,
    pub passed: bool,
    /// Whether the validation of each iteration so far passed, in order.
    pub outcomes: Ghost<Seq<bool>>,
}

/// What the loop does next.
pub enum LoopAction {
    /// Run iteration `iteration`, handing the repair the state's remaining delta.
    RunIteration { iteration: usize },
    /// The run is over.
    Finish { passed: bool, iterations: usize },
}

/// Whether no further iteration runs.
pub open spec fn run_over(s: LoopState) -> bool {
    s.stopped || s.manifest.iterations >= s.manifest.max_iterations
}

impl LoopState {
    /// The invariant of a run between iterations: it never ran more iterations than
    /// allowed; a run still going is `Running` and has not finished; a stopped
    /// run passed exactly when its status is `Passed`, failed otherwise, and has
    /// its finish time; after an iteration, validation passed exactly when no
    /// delta remains; and the last iteration always stops the run.
    pub open spec fn wf(self) -> bool {
        &&& self.manifest.iterations <= self.manifest.max_iterations
        &&& !self.stopped ==> self.manifest.status == RunStatus::Running
            && self.manifest.finished_at_unix is None && !self.passed
        &&& self.stopped ==> self.manifest.iterations > 0 && self.manifest.finished_at_unix is Some
            && (self.passed <==> self.manifest.status == RunStatus::Passed) && (!self.passed
            <==> self.manifest.status == RunStatus::Failed)
        &&& self.manifest.iterations > 0 ==> (self.passed <==> self.remaining_delta@.len() == 0)
        &&& self.manifest.iterations == self.manifest.max_iterations
            && self.manifest.iterations > 0 ==> self.stopped
        &&& self.outcomes@.len() == self.manifest.iterations
        &&& forall|i: int| 0 <= i < self.outcomes@.len() - 1 ==> !#[trigger] self.outcomes@[i]
        &&& self.outcomes@.len() > 0 ==> self.passed == self.outcomes@.last()
        &&& self.stopped && self.manifest.iterations < self.manifest.max_iterations ==> self.passed
    }

    /// What to do next: the next iteration while the run goes on, else finish.
    pub fn next_action(&self) -> (a: LoopAction)
        ensures
            run_over(*self) ==> a == (LoopAction::Finish {
                passed: self.passed,
                iterations: self.manifest.iterations,
            }),
            !run_over(*self) ==> a == (LoopAction::RunIteration {
                iteration: (self.manifest.iterations + 1) as usize,
            }),
    {
        if self.stopped || self.manifest.iterations >= self.manifest.max_iterations {
            LoopAction::Finish { passed: self.passed, iterations: self.manifest.iterations }
        } else {
            LoopAction::RunIteration { iteration: self.manifest.iterations + 1 }
        }
    }
}

/// The state of a run that starts with `manifest` (from `start_manifest`).
pub fn start_loop(manifest: RunManifest) -> (s: LoopState)
    requires
        manifest.iterations == 0,
        manifest.status == RunStatus::Running,
        manifest.finished_at_unix is None,
    ensures
        s.wf(),
        s.manifest == manifest,
        s.remaining_delta@.len() == 0,
        !s.stopped,
{
    LoopState {
        manifest,
        remaining_delta: Vec::new(),
        stopped: false,
        passed: false,
        outcomes: Ghost(Seq::empty()),
    }
}

/// What an iteration leaves: the record's outcome, the hook to run because the
/// run failed, and the state for the next step.
pub struct IterationStep {
    pub state: LoopState,
    pub outcome: IterationOutcome,
    pub on_failure_hook: Option<String>,
}

/// The manifest after an iteration: everything kept but the iteration count,
/// the final record and artifact, the status and the finish time.
pub open spec fn manifest_after(
    m: RunManifest,
    iteration: nat,
    status: RunStatus,
    finished_at_unix: u64,
    n: RunManifest,
) -> bool {
    &&& n.run_id == m.run_id
    &&& n.artifact == m.artifact
    &&& n.goal == m.goal
    &&& n.verify == m.verify
    &&& n.max_iterations == m.max_iterations
    &&& n.source_artifact_hash == m.source_artifact_hash
    &&& n.started_at_unix == m.started_at_unix
    &&& n.summary_path == m.summary_path
    &&& n.hooks == m.hooks
    &&& n.iterations == iteration
    &&& n.final_record_path matches Some(p) && p@ == record_rel_path(m.run_id@, iteration)
    &&& n.final_artifact_path matches Some(p) && p@ == artifact_rel_path(
        m.run_id@,
        iteration,
        m.artifact@,
    )
    &&& n.status == status
    &&& n.finished_at_unix == (if status == RunStatus::Running {
        None
    } else {
        Some(finished_at_unix)
    })
}

/// The status after an iteration whose validation ended as `passed` and after
/// which the loop stops (or not).
pub open spec fn status_after(passed: bool, stop: bool) -> RunStatus {
    if passed {
        RunStatus::Passed
    } else if stop {
        RunStatus::Failed
    } else {
        RunStatus::Running
    }
}

/// The decision after iteration `iteration`: the validation of the verify
/// command, merged with the `post_iteration` hook's result when one ran, gives
/// the record, the remaining delta, the status, and whether the loop stops.
pub fn conclude_iteration(
    state: LoopState,
    iteration: usize,
    validation: VerifyResult,
    post_iteration_hook: Option<VerifyResult>,
    finished_at_unix: u64,
) -> (step: IterationStep)
    requires
        state.wf(),
        !run_over(state),
        iteration == state.manifest.iterations + 1,
    ensures
        step.state.wf(),
        ({
            let merged = match post_iteration_hook {
                Some(h) => !h.passed,
                None => false,
            };
            let delta = validation_delta(validation);
            let o = step.outcome;
            &&& o.iteration == iteration
            &&& !merged ==> o.validation == validation && string_texts(o.remaining_delta@)
                == delta
            &&& merged ==> {
                let h = post_iteration_hook->0;
                let hd = hook_delta_text("post_iteration"@, h);
                &&& !o.validation.passed
                &&& o.validation.returncode == h.returncode
                &&& o.validation.stdout == validation.stdout
                &&& o.validation.stderr@ == (if is_blank(validation.stderr@) {
                    hd
                } else {
                    validation.stderr@ + "\n"@ + hd
                })
                &&& string_texts(o.remaining_delta@) == delta.push(hd)
            }
        }),
        step.outcome.validation.passed <==> step.outcome.remaining_delta@.len() == 0,
        step.state.remaining_delta@ == step.outcome.remaining_delta@,
        step.state.stopped == stops(
            iteration as int,
            state.manifest.max_iterations as int,
            step.outcome.validation.passed,
            step.outcome.remaining_delta@.len() as int,
        ),
        step.state.passed == step.outcome.validation.passed,
        step.state.outcomes@ == state.outcomes@.push(step.outcome.validation.passed),
        manifest_after(
            state.manifest,
            iteration as nat,
            status_after(step.outcome.validation.passed, step.state.stopped),
            finished_at_unix,
            step.state.manifest,
        ),
        step.on_failure_hook == (if step.state.manifest.status == RunStatus::Failed {
            state.manifest.hooks.on_failure
        } else {
            None
        }),
{
    let delta = remaining_delta_of(&validation);
    let (validation, delta) = match &post_iteration_hook {
        Some(hook) => merge_post_iteration_hook(validation, delta, hook),
        None => (validation, delta),
    };
    proof {
        if validation.passed {
            assert(string_texts(delta@).len() == 0);
        } else {
            assert(string_texts(delta@).len() > 0);
        }
    }
    let stop = should_stop(iteration, state.manifest.max_iterations, validation.passed, delta.as_slice());
    let status = if validation.passed {
        RunStatus::Passed
    } else if stop {
        RunStatus::Failed
    } else {
        RunStatus::Running
    };
    let mut manifest = state.manifest;
    manifest.iterations = iteration;
    manifest.final_record_path = Some(record_path_in_run(manifest.run_id.as_str(), iteration));
    manifest.final_artifact_path = Some(
        artifact_path_in_run(manifest.run_id.as_str(), iteration, manifest.artifact.as_str()),
    );
    manifest.status = status;
    if status != RunStatus::Running {
        manifest.finished_at_unix = Some(finished_at_unix);
    }
    let on_failure_hook = if status == RunStatus::Failed {
        copy_opt(&manifest.hooks.on_failure)
    } else {
        None
    };
    let passed = validation.passed;
    let mut recorded: Vec<String> = Vec::new();
    let mut k: usize = 0;
    while k < delta.len()
        invariant
            k <= delta.len(),
            recorded@ == delta@.take(k as int),
        decreases delta.len() - k,
    {
        recorded.push(delta[k].clone());
        assert(delta@.take(k + 1) =~= delta@.take(k as int).push(delta@[k as int]));
        k = k + 1;
    }
    assert(delta@.take(delta.len() as int) =~= delta@);
    let outcome = IterationOutcome { iteration, validation, remaining_delta: recorded };
    let outcomes = Ghost(state.outcomes@.push(passed));
    let next = LoopState { manifest, remaining_delta: delta, stopped: stop, passed, outcomes };
    IterationStep { state: next, outcome, on_failure_hook }
}

/// What a finished loop reports, from its final state and the paths the caller
/// placed the run at.
pub fn loop_summary(
    state: &LoopState,
    run_dir: String,
    final_record_path: Option<String>,
    final_artifact_path: Option<String>,
    summary_path: Option<String>,
) -> (s: LoopSummary)
    ensures
        s.run_id == state.manifest.run_id,
        s.run_dir == run_dir,
        s.passed == state.passed,
        s.iterations == state.manifest.iterations,
        s.final_record_path == final_record_path,
        s.final_artifact_path == final_artifact_path,
        s.summary_path == summary_path,
{
    LoopSummary {
        run_id: state.manifest.run_id.clone(),
        run_dir,
        passed: state.passed,
        iterations: state.manifest.iterations,
        final_record_path,
        final_artifact_path,
        summary_path,
    }
}

/// Law: a run never goes past its iteration limit. From any state between
/// iterations, the next action either finishes the run or runs the iteration
/// after the last, which is at most `max_iterations`; and once the last allowed
/// iteration has run, the run is over.
pub proof fn law_iterations_bounded(s: LoopState)
    requires
        s.wf(),
    ensures
        !run_over(s) ==> s.manifest.iterations + 1 <= s.manifest.max_iterations,
        s.manifest.iterations == s.manifest.max_iterations ==> run_over(s),
{
}

/// Law: a finished run passed exactly when its manifest says `Passed`, and
/// when it did not pass, a delta remains for a human to read.
pub proof fn law_finished_status(s: LoopState)
    requires
        s.wf(),
        s.stopped,
    ensures
        s.passed <==> s.manifest.status == RunStatus::Passed,
        !s.passed <==> s.manifest.status == RunStatus::Failed,
        !s.passed ==> s.remaining_delta@.len() > 0,
        s.manifest.finished_at_unix is Some,
{
}

/// The focus of a review agent that names none.
pub open spec fn default_focus() -> Seq<char> {
    "review correctness, tests, docs, and safety"@
}

/// The prompt of a read-only review agent.
pub open spec fn review_prompt_text(
    config: LoopConfig,
    agent: ReviewAgentConfig,
    artifact_text: Seq<char>,
) -> Seq<char> {
    let focus = match agent.focus {
        Some(f) => f@,
        None => default_focus(),
    };
    "You are a read-only review agent.\nAgent: "@ + agent.id@ + "\nFocus: "@ + focus
        + "\nArtifact: "@ + config.artifact@ + "\nGoal: "@ + config.goal@
        + "\nDo not edit files. Return concise structured findings.\n\n"@ + artifact_text
}

/// The prompt that asks `agent` to review the artifact's text.
pub fn review_prompt(config: &LoopConfig, agent: &ReviewAgentConfig, artifact_text: &str) -> (p:
    String)
    ensures
        p@ == review_prompt_text(*config, *agent, artifact_text@),
{
    let mut p = string_of("You are a read-only review agent.\nAgent: ");
    p.append(agent.id.as_str());
    p.append("\nFocus: ");
    match &agent.focus {
        Some(f) => p.append(f.as_str()),
        None => p.append("review correctness, tests, docs, and safety"),
    }
    p.append("\nArtifact: ");
    p.append(config.artifact.as_str());
    p.append("\nGoal: ");
    p.append(config.goal.as_str());
    p.append("\nDo not edit files. Return concise structured findings.\n\n");
    p.append(artifact_text);
    p
}

/// Law: a review prompt names the agent and then, on its `Focus:` line, the
/// agent's own focus, or the general review focus when the agent names none;
/// that line is followed by the artifact's path and the goal; and the prompt
/// ends with the artifact's text.
pub proof fn law_review_prompt_focus(
    config: LoopConfig,
    agent: ReviewAgentConfig,
    artifact_text: Seq<char>,
)
    ensures
        ({
            let p = review_prompt_text(config, agent, artifact_text);
            let head = "You are a read-only review agent.\nAgent: "@ + agent.id@;
            let line = "\nFocus: "@ + match agent.focus {
                Some(f) => f@,
                None => "review correctness, tests, docs, and safety"@,
            } + "\nArtifact: "@;
            &&& p.take(head.len() as int) == head
            &&& p.subrange(head.len() as int, (head.len() + line.len()) as int) == line
            &&& p.subrange(
                (head.len() + line.len()) as int,
                (head.len() + line.len() + config.artifact@.len() + 7 + config.goal@.len()) as int,
            ) == config.artifact@ + "\nGoal: "@ + config.goal@
            &&& p.len() >= artifact_text.len()
            &&& p.skip(p.len() - artifact_text.len()) == artifact_text
        }),
{
    let p = review_prompt_text(config, agent, artifact_text);
    let head = "You are a read-only review agent.\nAgent: "@ + agent.id@;
    let focus = match agent.focus {
        Some(f) => f@,
        None => default_focus(),
    };
    let line = "\nFocus: "@ + focus + "\nArtifact: "@;
    let rest = config.artifact@ + "\nGoal: "@ + config.goal@
        + "\nDo not edit files. Return concise structured findings.\n\n"@;
    assert(p =~= head + line + rest + artifact_text);
    assert(p.take(head.len() as int) =~= head);
    assert(p.subrange(head.len() as int, (head.len() + line.len()) as int) =~= line);
    reveal_strlit("\nGoal: ");
    assert(p.subrange(
        (head.len() + line.len()) as int,
        (head.len() + line.len() + config.artifact@.len() + 7 + config.goal@.len()) as int,
    ) =~= config.artifact@ + "\nGoal: "@ + config.goal@);
    assert(p.skip(p.len() - artifact_text.len()) =~= artifact_text);
}

/// `serde_json::Error`, the error of serializing or parsing with `serde_json`.
#[verifier::external_type_specification]
#[verifier::external_body]
pub struct ExJsonError(serde_json::Error);

/// The pretty-printed JSON array of the given strings, as
/// `serde_json::to_string_pretty` writes it.
pub uninterp spec fn pretty_json_strings(items: Seq<Seq<char>>) -> Seq<char>;

/// `serde_json::to_string_pretty` on a list of strings. Its documentation says
/// serializing fails only when a `Serialize` impl decides to fail or a map has
/// non-string keys; neither happens for strings, so the call succeeds, and its
/// text is named by `pretty_json_strings`.
#[verifier::external_body]
fn json_pretty_strings(items: &[String]) -> (r: Result<String, serde_json::Error>)
    ensures
        r is Ok,
        r is Ok ==> r->Ok_0@ == pretty_json_strings(string_texts(items@)),
{
    serde_json::to_string_pretty(items)
}

/// The prompt of the single writer that repairs the copied artifact, with the
/// remaining delta given as JSON text.
pub open spec fn repair_prompt_text(
    config: LoopConfig,
    editable_path: Seq<char>,
    findings: Seq<char>,
    delta_json: Seq<char>,
    iteration: nat,
) -> Seq<char> {
    "You are repairing a copied artifact.\nEditable copy: "@ + editable_path + "\nIteration: "@
        + decimal(iteration) + "\nGoal: "@ + config.goal@
        + "\nMake the smallest useful edits. Edit only the editable copy. Do not claim validation passed.\nReview findings: "@
        + findings + "\nRemaining validation delta: "@ + delta_json
}

/// The prompt that asks the writer to repair the copy at `editable_path`, given
/// the merged review findings and the remaining delta, both as JSON text.
pub fn repair_prompt_with_delta_json(
    config: &LoopConfig,
    editable_path: &str,
    findings: &str,
    delta_json: &str,
    iteration: usize,
) -> (p: String)
    ensures
        p@ == repair_prompt_text(*config, editable_path@, findings@, delta_json@, iteration as nat),
{
    let mut p = string_of("You are repairing a copied artifact.\nEditable copy: ");
    p.append(editable_path);
    p.append("\nIteration: ");
    push_decimal(&mut p, iteration as u64);
    p.append("\nGoal: ");
    p.append(config.goal.as_str());
    p.append(
        "\nMake the smallest useful edits. Edit only the editable copy. Do not claim validation passed.\nReview findings: ",
    );
    p.append(findings);
    p.append("\nRemaining validation delta: ");
    p.append(delta_json);
    p
}

/// The prompt that asks the writer to repair the copy at `editable_path`, given
/// the merged review findings (as JSON text) and the delta the last validation
/// left, which goes into the prompt as pretty-printed JSON.
pub fn repair_prompt(
    config: &LoopConfig,
    editable_path: &str,
    findings: &str,
    remaining_delta: &[String],
    iteration: usize,
) -> (p: String)
    ensures
        p@ == repair_prompt_text(
            *config,
            editable_path@,
            findings@,
            pretty_json_strings(string_texts(remaining_delta@)),
            iteration as nat,
        ),
{
    match json_pretty_strings(remaining_delta) {
        Ok(text) => repair_prompt_with_delta_json(
            config,
            editable_path,
            findings,
            text.as_str(),
            iteration,
        ),
        Err(_) => {
            proof {
                assert(false);
            }
            String::new()
        },
    }
}

/// `serde_json::Value`, any JSON value.
#[verifier::external_type_specification]
#[verifier::external_body]
pub struct ExJsonValue(serde_json::Value);

/// Whether `text` is one JSON value (with nothing but white space after it), as
/// `serde_json::from_str` into a `serde_json::Value` accepts it.
pub uninterp spec fn json_text_parses(text: Seq<char>) -> bool;

/// The JSON value that `serde_json::from_str` parses from `text`.
pub uninterp spec fn json_value_of(text: Seq<char>) -> serde_json::Value;

/// `serde_json::from_str` into a `serde_json::Value`: it succeeds exactly when
/// the text parses, which `json_text_parses` names, and then yields the value
/// that `json_value_of` names; both depend on the text alone.
#[verifier::external_body]
fn parse_json_value(text: &str) -> (r: Result<serde_json::Value, serde_json::Error>)
    ensures
        r is Ok <==> json_text_parses(text@),
        r matches Ok(v) ==> v == json_value_of(text@),
{
    serde_json::from_str(text)
}

/// Why a `codex exec` phase gave no answer.
#[derive(Debug)]
pub enum CodexFailure {
    /// The process exited unsuccessfully, with this status.
    Failed { status: String },
    /// The process wrote no answer file at this path.
    MissingAnswer { path: String },
    /// The answer file does not hold JSON.
    InvalidAnswer { error: serde_json::Error },
}

/// The text that reports a failure to run `codex exec` or to find its answer
/// (the JSON error of an invalid answer reports itself).
pub open spec fn codex_failure_text(status_or_path: Seq<char>, failed: bool) -> Seq<char> {
    if failed {
        "codex exec failed with status "@ + status_or_path
    } else {
        "missing codex answer "@ + status_or_path
    }
}

impl CodexFailure {
    /// The message of a failed run or a missing answer; `None` for an invalid
    /// answer, whose JSON error carries its own message.
    pub fn message(&self) -> (m: Option<String>)
        ensures
            self matches CodexFailure::Failed { status } ==> (m matches Some(t) && t@
                == codex_failure_text(status@, true)),
            self matches CodexFailure::MissingAnswer { path } ==> (m matches Some(t) && t@
                == codex_failure_text(path@, false)),
            self is InvalidAnswer ==> m is None,
    {
        match self {
            CodexFailure::Failed { status } => {
                let mut t = string_of("codex exec failed with status ");
                t.append(status.as_str());
                Some(t)
            },
            CodexFailure::MissingAnswer { path } => {
                let mut t = string_of("missing codex answer ");
                t.append(path.as_str());
                Some(t)
            },
            CodexFailure::InvalidAnswer { .. } => None,
        }
    }
}

/// The answer of a `codex exec` phase: an unsuccessful exit fails with its
/// status; a successful one needs the answer file, whose text must parse as JSON,
/// and the answer is the value parsed from it.
pub fn codex_answer(exit_ok: bool, status: &str, answer_path: &str, answer: Option<&str>) -> (r:
    Result<serde_json::Value, CodexFailure>)
    ensures
        !exit_ok ==> (r matches Err(CodexFailure::Failed { status: s }) && s@ == status@),
        exit_ok && answer is None ==> (r matches Err(CodexFailure::MissingAnswer { path: p })
            && p@ == answer_path@),
        exit_ok && answer is Some ==> (r is Ok <==> json_text_parses(answer->0@)),
        exit_ok && answer is Some ==> (r matches Ok(v) ==> v == json_value_of(answer->0@)),
        exit_ok && answer is Some && r is Err ==> r matches Err(CodexFailure::InvalidAnswer { .. }),
{
    if !exit_ok {
        return Err(CodexFailure::Failed { status: string_of(status) });
    }
    match answer {
        None => Err(CodexFailure::MissingAnswer { path: string_of(answer_path) }),
        Some(text) => match parse_json_value(text) {
            Ok(value) => Ok(value),
            Err(error) => Err(CodexFailure::InvalidAnswer { error }),
        },
    }
}

/// The findings of one review agent's answer: the agent's id, and the items of
/// the answer's `findings` array when it has one.
pub struct AgentFindings<F> {
    pub agent_id: String,
    pub findings: Option<Vec<F>>,
}

/// The member of a JSON value under a key, as `serde_json::Value::get` finds it:
/// none unless the value is an object that holds the key.
pub uninterp spec fn json_member_of(value: serde_json::Value, key: Seq<char>) -> Option<
    serde_json::Value,
>;

/// `serde_json::Value::get` with a string key, the member cloned; it yields
/// what `json_member_of` names, which depends on the value and the key alone.
#[verifier::external_body]
fn json_member(value: &serde_json::Value, key: &str) -> (r: Option<serde_json::Value>)
    ensures
        r == json_member_of(*value, key@),
{
    value.get(key).cloned()
}

/// The items of a JSON value, as `serde_json::Value::as_array` gives them: none
/// unless the value is an array.
pub uninterp spec fn json_array_items_of(value: serde_json::Value) -> Option<
    Seq<serde_json::Value>,
>;

/// `serde_json::Value::as_array`, the items cloned; it yields what
/// `json_array_items_of` names, which depends on the value alone.
#[verifier::external_body]
fn json_array_items(value: &serde_json::Value) -> (r: Option<Vec<serde_json::Value>>)
    ensures
        r is Some <==> json_array_items_of(*value) is Some,
        r matches Some(items) ==> json_array_items_of(*value) == Some(items@),
{
    value.as_array().cloned()
}

/// The findings that a review answer lists: the items of its `findings` member
/// when that member is an array.
pub open spec fn answer_findings(answer: serde_json::Value) -> Option<Seq<serde_json::Value>> {
    match json_member_of(answer, "findings"@) {
        Some(member) => json_array_items_of(member),
        None => None,
    }
}

/// The findings of one review agent's answer, kept with the agent's id.
pub fn agent_findings(agent_id: String, answer: &serde_json::Value) -> (r: AgentFindings<
    serde_json::Value,
>)
    ensures
        r.agent_id == agent_id,
        r.findings is Some <==> answer_findings(*answer) is Some,
        r.findings matches Some(items) ==> answer_findings(*answer) == Some(items@),
{
    proof {
        reveal_strlit("findings");
    }
    let findings = match json_member(answer, "findings") {
        Some(member) => json_array_items(&member),
        None => None,
    };
    AgentFindings { agent_id, findings }
}

/// Each finding of one agent, tagged with the agent's id.
pub open spec fn tagged<F>(a: AgentFindings<F>) -> Seq<(String, F)> {
    match a.findings {
        Some(items) => items@.map_values(|f: F| (a.agent_id, f)),
        None => seq![],
    }
}

/// Every finding of every agent, in agent order, each tagged with its agent's id.
pub open spec fn all_tagged<F>(answers: Seq<AgentFindings<F>>) -> Seq<(String, F)>
    decreases answers.len(),
{
    if answers.len() == 0 {
        seq![]
    } else {
        all_tagged(answers.drop_last()) + tagged(answers.last())
    }
}

/// The findings handed to the writer: every finding of every review agent, in
/// the agents' order and each agent's order, tagged with the agent's id.
pub fn merge_review_findings<F>(answers: Vec<AgentFindings<F>>) -> (r: Vec<(String, F)>)
    ensures
        r@ == all_tagged(answers@),
{
    let mut r: Vec<(String, F)> = Vec::new();
    let ghost all = answers@;
    for a in it: answers.into_iter()
        invariant
            all == it.seq(),
            r@ == all_tagged(it.seq().take(it.index() as int)),
    {
        let ghost before = r@;
        let ghost k = it.index();
        assert(it.seq().take(k + 1).drop_last() =~= it.seq().take(k as int));
        assert(it.seq()[k as int] == a);
        let AgentFindings { agent_id, findings } = a;
        if let Some(items) = findings {
            let ghost whole = items@;
            for f in jt: items.into_iter()
                invariant
                    whole == jt.seq(),
                    r@ == before + whole.take(jt.index() as int).map_values(
                        |g: F| (agent_id, g),
                    ),
            {
                let ghost j = jt.index();
                r.push((agent_id.clone(), f));
                assert(whole.take(j + 1).map_values(|g: F| (agent_id, g)) =~= whole.take(
                    j as int,
                ).map_values(|g: F| (agent_id, g)).push((agent_id, whole[j as int])));
            }
            assert(whole.take(whole.len() as int) =~= whole);
        }
        assert(r@ =~= all_tagged(it.seq().take(k + 1)));
    }
    assert(all.take(all.len() as int) =~= all);
    r
}

/// Law: a run of a configuration that validates performs at least one
/// iteration: at its start the loop is not over.
pub proof fn law_valid_config_runs(c: LoopConfig, s: LoopState)
    requires
        crate::config::config_error(c) is None,
        s.wf(),
        s.manifest.max_iterations == c.max_iterations,
        s.manifest.iterations == 0,
    ensures
        !run_over(s),
{
    crate::config::law_valid_config_agents(c);
}

/// Law over a whole run: once the loop is over (with at least one iteration
/// allowed), it ran between one and `max_iterations` iterations; every
/// iteration but the last failed validation; the run passed exactly when the
/// last one passed; it stopped early only by passing; and its manifest says
/// `Passed` or `Failed` accordingly.
pub proof fn law_whole_run(s: LoopState)
    requires
        s.wf(),
        run_over(s),
        s.manifest.max_iterations >= 1,
    ensures
        s.stopped,
        1 <= s.manifest.iterations <= s.manifest.max_iterations,
        s.outcomes@.len() == s.manifest.iterations,
        forall|i: int| 0 <= i < s.outcomes@.len() - 1 ==> !#[trigger] s.outcomes@[i],
        s.passed == s.outcomes@.last(),
        s.manifest.iterations < s.manifest.max_iterations ==> s.passed,
        s.manifest.status == (if s.passed {
            RunStatus::Passed
        } else {
            RunStatus::Failed
        }),
{
}

} // verus!

use loopsmith::runner::{agent_findings, codex_answer, CodexFailure};
use loopsmith::config::{LoopConfig, ReviewAgentConfig};
use loopsmith::hooks::HooksConfig;
use loopsmith::run_state::RunStatus;
use loopsmith::runner::{
    conclude_iteration, hook_delta, loop_summary, merge_post_iteration_hook,
    merge_review_findings, remaining_delta_of, repair_prompt, repair_prompt_with_delta_json,
    review_prompt, should_stop,
    start_loop, start_manifest, AgentFindings, LoopAction, LoopState,
};
use loopsmith::verify::VerifyResult;

fn test_config(verify: &str, max_iterations: usize) -> LoopConfig {
    LoopConfig {
        artifact: "README.md".to_string(),
        goal: "repair docs".to_string(),
        verify: verify.to_string(),
        max_iterations,
        model: "gpt-5.5".to_string(),
        review_model: None,
        repair_model: None,
        model_reasoning_effort: "low".to_string(),
        sandbox: "workspace-write".to_string(),
        approval_policy: "never".to_string(),
        profile: None,
        review_agents: Vec::new(),
        hooks: HooksConfig::default(),
    }
}

fn result(passed: bool, returncode: i32, stdout: &str, stderr: &str) -> VerifyResult {
    VerifyResult {
        passed,
        returncode,
        stdout: stdout.to_string(),
        stderr: stderr.to_string(),
    }
}

fn start(config: &LoopConfig) -> LoopState {
    start_loop(start_manifest(config, "run-1".to_string(), "abc".to_string(), 100))
}

fn next_iteration(state: &LoopState) -> usize {
    match state.next_action() {
        LoopAction::RunIteration { iteration } => iteration,
        LoopAction::Finish { .. } => panic!("run already over"),
    }
}

#[test]
fn stops_when_validation_passes() {
    assert!(should_stop(1, 3, true, &["x".to_string()]));
}

#[test]
fn stops_at_max_iterations() {
    assert!(should_stop(3, 3, false, &["x".to_string()]));
}

#[test]
fn continues_when_delta_remains_before_limit() {
    assert!(!should_stop(1, 3, false, &["x".to_string()]));
}

#[test]
fn stops_when_no_delta_remains() {
    assert!(should_stop(1, 3, false, &[]));
}

#[test]
fn start_manifest_records_the_config() {
    let config = test_config("printf ok", 3);
    let m = start_manifest(&config, "run-7".to_string(), "hash".to_string(), 42);
    assert_eq!(m.run_id, "run-7");
    assert_eq!(m.artifact, "README.md");
    assert_eq!(m.verify, "printf ok");
    assert_eq!(m.max_iterations, 3);
    assert_eq!(m.source_artifact_hash, "hash");
    assert_eq!(m.started_at_unix, 42);
    assert_eq!(m.status, RunStatus::Running);
    assert_eq!(m.iterations, 0);
    assert_eq!(m.summary_path.as_deref(), Some("run-7/summary.md"));
    assert_eq!(m.finished_at_unix, None);
}

#[test]
fn passing_iteration_finishes_the_run() {
    let config = test_config("printf ok", 3);
    let state = start(&config);
    assert_eq!(next_iteration(&state), 1);
    let step = conclude_iteration(state, 1, result(true, 0, "ok", ""), None, 200);
    assert!(step.outcome.validation.passed);
    assert!(step.outcome.remaining_delta.is_empty());
    assert_eq!(step.on_failure_hook, None);
    let m = &step.state.manifest;
    assert_eq!(m.status, RunStatus::Passed);
    assert_eq!(m.iterations, 1);
    assert_eq!(m.finished_at_unix, Some(200));
    assert_eq!(m.final_record_path.as_deref(), Some("run-1/iteration_1/record.json"));
    assert_eq!(
        m.final_artifact_path.as_deref(),
        Some("run-1/iteration_1/workspace/README.md")
    );
    match step.state.next_action() {
        LoopAction::Finish { passed, iterations } => {
            assert!(passed);
            assert_eq!(iterations, 1);
        }
        LoopAction::RunIteration { .. } => panic!("run should be over"),
    }
    let summary = loop_summary(&step.state, "runs/run-1".to_string(), None, None, None);
    assert!(summary.passed);
    assert_eq!(summary.iterations, 1);
    assert_eq!(summary.run_id, "run-1");
}

#[test]
fn failed_verification_writes_remaining_delta() {
    let config = test_config("printf failure-details; exit 7", 1);
    let state = start(&config);
    let step = conclude_iteration(state, 1, result(false, 7, "failure-details", ""), None, 5);
    assert!(!step.outcome.validation.passed);
    assert_eq!(step.outcome.validation.returncode, 7);
    assert!(step.outcome.remaining_delta[0].contains("failure-details"));
    assert_eq!(step.state.manifest.status, RunStatus::Failed);
    assert!(matches!(
        step.state.next_action(),
        LoopAction::Finish { passed: false, iterations: 1 }
    ));
}

#[test]
fn failed_verification_runs_until_max_iterations_and_hands_on_delta() {
    let mut config = test_config("printf still-bad; exit 7", 2);
    config.hooks.on_failure = Some("printf failed".to_string());
    let state = start(&config);
    assert!(state.remaining_delta.is_empty());
    let first = conclude_iteration(state, 1, result(false, 7, "first-failure", ""), None, 5);
    assert_eq!(first.state.manifest.status, RunStatus::Running);
    assert_eq!(first.state.manifest.finished_at_unix, None);
    assert_eq!(first.on_failure_hook, None);
    assert_eq!(next_iteration(&first.state), 2);
    assert!(first.state.remaining_delta[0].contains("first-failure"));
    let second = conclude_iteration(first.state, 2, result(false, 7, "", "still-bad"), None, 9);
    assert_eq!(second.outcome.remaining_delta, vec!["still-bad".to_string()]);
    assert_eq!(second.state.manifest.status, RunStatus::Failed);
    assert_eq!(second.state.manifest.iterations, 2);
    assert_eq!(second.state.manifest.finished_at_unix, Some(9));
    assert_eq!(second.on_failure_hook.as_deref(), Some("printf failed"));
    assert!(matches!(
        second.state.next_action(),
        LoopAction::Finish { passed: false, iterations: 2 }
    ));
}

#[test]
fn failed_post_iteration_hook_keeps_run_failed_and_records_delta() {
    let config = test_config("printf ok", 1);
    let state = start(&config);
    let hook = result(false, 7, "hook-failed", "");
    let step = conclude_iteration(state, 1, result(true, 0, "ok", ""), Some(hook), 3);
    assert!(!step.outcome.validation.passed);
    assert_eq!(step.outcome.validation.returncode, 7);
    assert!(step.outcome.remaining_delta[0].contains("post_iteration hook failed"));
    assert_eq!(
        step.outcome.validation.stderr,
        "post_iteration hook failed with status 7: hook-failed"
    );
    assert_eq!(step.state.manifest.status, RunStatus::Failed);
}

#[test]
fn passing_post_iteration_hook_changes_nothing() {
    let validation = result(false, 2, "out", "err");
    let (merged, delta) = merge_post_iteration_hook(
        validation.clone(),
        vec!["err".to_string()],
        &result(true, 0, "fine", ""),
    );
    assert_eq!(merged, validation);
    assert_eq!(delta, vec!["err".to_string()]);
}

#[test]
fn failed_hook_appends_to_existing_stderr() {
    let (merged, delta) = merge_post_iteration_hook(
        result(false, 2, "out", "err"),
        vec!["err".to_string()],
        &result(false, 9, "", "  broken  \n"),
    );
    assert_eq!(merged.stderr, "err\npost_iteration hook failed with status 9: broken");
    assert_eq!(merged.returncode, 9);
    assert_eq!(
        delta,
        vec!["err".to_string(), "post_iteration hook failed with status 9: broken".to_string()]
    );
}

#[test]
fn hook_delta_prefers_stderr_and_omits_empty_output() {
    assert_eq!(
        hook_delta("pre_run", &result(false, 3, "out", "bad")),
        "pre_run hook failed with status 3: bad"
    );
    assert_eq!(
        hook_delta("pre_run", &result(false, 3, " out ", " \t")),
        "pre_run hook failed with status 3: out"
    );
    assert_eq!(
        hook_delta("on_failure", &result(false, -1, "", "")),
        "on_failure hook failed with status -1"
    );
}

#[test]
fn remaining_delta_takes_stderr_unless_blank() {
    assert!(remaining_delta_of(&result(true, 0, "x", "y")).is_empty());
    assert_eq!(remaining_delta_of(&result(false, 1, "x", "y")), vec!["y".to_string()]);
    assert_eq!(remaining_delta_of(&result(false, 1, "x", "  ")), vec!["x".to_string()]);
}

#[test]
fn zero_iteration_limit_finishes_at_once() {
    let config = test_config("printf ok", 0);
    let state = start(&config);
    assert!(matches!(
        state.next_action(),
        LoopAction::Finish { passed: false, iterations: 0 }
    ));
}

#[test]
fn review_findings_are_tagged_by_agent_in_order() {
    let merged = merge_review_findings(vec![
        AgentFindings { agent_id: "correctness".to_string(), findings: Some(vec![1, 2]) },
        AgentFindings { agent_id: "tests".to_string(), findings: None },
        AgentFindings { agent_id: "docs".to_string(), findings: Some(vec![3]) },
    ]);
    assert_eq!(
        merged,
        vec![
            ("correctness".to_string(), 1),
            ("correctness".to_string(), 2),
            ("docs".to_string(), 3),
        ]
    );
}

#[test]
fn review_prompt_names_agent_focus_and_goal() {
    let config = test_config("printf ok", 1);
    let agent = ReviewAgentConfig {
        id: "tests".to_string(),
        model: None,
        focus: None,
        model_reasoning_effort: None,
    };
    assert_eq!(
        review_prompt(&config, &agent, "hello"),
        "You are a read-only review agent.\nAgent: tests\nFocus: review correctness, tests, docs, and safety\nArtifact: README.md\nGoal: repair docs\nDo not edit files. Return concise structured findings.\n\nhello"
    );
}

#[test]
fn repair_prompt_carries_delta_as_json() {
    let config = test_config("printf ok", 1);
    let delta = vec!["line \"one\"".to_string(), "two".to_string()];
    let prompt = repair_prompt(&config, "runs/w/README.md", "{\"findings\":[]}", &delta, 2);
    let expected = format!(
        "You are repairing a copied artifact.\nEditable copy: runs/w/README.md\nIteration: 2\nGoal: repair docs\nMake the smallest useful edits. Edit only the editable copy. Do not claim validation passed.\nReview findings: {{\"findings\":[]}}\nRemaining validation delta: {}",
        serde_json::to_string_pretty(&delta).unwrap()
    );
    assert_eq!(prompt, expected);
    assert!(prompt.ends_with("[\n  \"line \\\"one\\\"\",\n  \"two\"\n]"));
    let empty = repair_prompt(&config, "p", "f", &[], 1);
    assert!(empty.ends_with("Remaining validation delta: []"));
}

#[test]
fn repair_prompt_places_each_part() {
    let config = test_config("printf ok", 1);
    assert_eq!(
        repair_prompt_with_delta_json(&config, "w/README.md", "{}", "[]", 3),
        "You are repairing a copied artifact.\nEditable copy: w/README.md\nIteration: 3\nGoal: repair docs\nMake the smallest useful edits. Edit only the editable copy. Do not claim validation passed.\nReview findings: {}\nRemaining validation delta: []"
    );
}

#[test]
fn codex_answer_requires_success_answer_and_json() {
    let failed = codex_answer(false, "exit status: 2", "run/answer.json", Some("{}")).unwrap_err();
    assert!(matches!(failed, CodexFailure::Failed { ref status } if status == "exit status: 2"));
    assert_eq!(
        failed.message().as_deref(),
        Some("codex exec failed with status exit status: 2")
    );
    let missing = codex_answer(true, "exit status: 0", "run/answer.json", None).unwrap_err();
    assert_eq!(missing.message().as_deref(), Some("missing codex answer run/answer.json"));
    let invalid = codex_answer(true, "exit status: 0", "a", Some("{not-json")).unwrap_err();
    assert!(matches!(invalid, CodexFailure::InvalidAnswer { .. }));
    assert!(invalid.message().is_none());
    let value = codex_answer(true, "exit status: 0", "a", Some("{\"findings\": [1, 2]}")).unwrap();
    assert_eq!(value["findings"].as_array().unwrap().len(), 2);
    assert!(codex_answer(true, "exit status: 0", "a", Some(" [] \n")).is_ok());
    assert!(codex_answer(true, "exit status: 0", "a", Some("[] x")).is_err());
}

#[test]
fn agent_findings_takes_the_findings_array() {
    let answer: serde_json::Value =
        serde_json::from_str("{\"findings\": [\"a\", {\"b\": 1}], \"other\": 2}").unwrap();
    let found = agent_findings("style".to_string(), &answer);
    assert_eq!(found.agent_id, "style");
    let items = found.findings.unwrap();
    assert_eq!(items.len(), 2);
    assert_eq!(items[0], serde_json::Value::String("a".to_string()));

    let not_array: serde_json::Value = serde_json::from_str("{\"findings\": \"none\"}").unwrap();
    assert!(agent_findings("x".to_string(), &not_array).findings.is_none());
    let absent: serde_json::Value = serde_json::from_str("[1, 2]").unwrap();
    assert!(agent_findings("x".to_string(), &absent).findings.is_none());
}

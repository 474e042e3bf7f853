use loopsmith::text::{blank, str_eq, starts_with, trimmed};
use loopsmith::workspace::should_skip;
use loopsmith::hooks::{hook_audit, require_hook_passed, HooksConfig};
use loopsmith::report::{render_apply_outcome, render_inspection, render_profiles};
use loopsmith::record::IterationOutcome;
use loopsmith::run_state::{ApplyOutcome, RunManifest, RunStatus};
use loopsmith::verify::VerifyResult;

#[test]
fn trimming_matches_str_trim() {
    let samples = [
        "", " ", "\t\n", "a", "  a b  ", "\u{3000}x\u{a0}", "\u{200b}y", "x\u{85}", "\r\nz\r\n",
    ];
    for s in samples {
        assert_eq!(trimmed(s), s.trim(), "{s:?}");
        assert_eq!(blank(s), s.trim().is_empty(), "{s:?}");
    }
}

#[test]
fn string_comparisons() {
    assert!(str_eq("abc", "abc"));
    assert!(!str_eq("abc", "abd"));
    assert!(!str_eq("ab", "abc"));
    assert!(starts_with("runs-old", "runs"));
    assert!(!starts_with("run", "runs"));
}

#[test]
fn copying_skips_build_output_and_runs() {
    assert!(should_skip(".git"));
    assert!(should_skip("target"));
    assert!(should_skip("runs"));
    assert!(should_skip("runs_backup"));
    assert!(should_skip(".DS_Store"));
    assert!(!should_skip("README.md"));
    assert!(!should_skip("src"));
    assert!(!should_skip("targets"));
}

#[test]
fn required_hook_fails_on_nonzero_exit() {
    let failed = VerifyResult {
        passed: false,
        returncode: 9,
        stdout: "blocked".to_string(),
        stderr: String::new(),
    };
    let err = require_hook_passed("pre_apply", failed).unwrap_err();
    assert!(err.message().contains("pre_apply hook failed"));
    assert_eq!(err.message(), "pre_apply hook failed with status 9");
    let ok = VerifyResult { passed: true, returncode: 0, stdout: "x".to_string(), stderr: String::new() };
    assert_eq!(require_hook_passed("pre_run", ok.clone()).unwrap(), ok);
}

#[test]
fn hook_audit_names_event_and_command() {
    let r = VerifyResult { passed: true, returncode: 0, stdout: "hook-ok".to_string(), stderr: String::new() };
    let audit = hook_audit("pre_run", "printf hook-ok", &r);
    assert_eq!(audit.event, "pre_run");
    assert_eq!(audit.command, "printf hook-ok");
    assert_eq!(audit.result, r);
}

#[test]
fn hook_commands_are_listed_in_lifecycle_order() {
    let hooks = HooksConfig {
        pre_run: Some("git diff --check".to_string()),
        post_apply: Some("cargo test --locked --all-targets".to_string()),
        ..HooksConfig::default()
    };
    let commands = hooks.commands();
    assert_eq!(
        commands,
        [
            ("pre_run", Some("git diff --check")),
            ("post_iteration", None),
            ("pre_apply", None),
            ("post_apply", Some("cargo test --locked --all-targets")),
            ("on_failure", None),
        ]
    );
}

#[test]
fn inspection_and_apply_reports() {
    let m = RunManifest {
        run_id: "run-1".to_string(),
        artifact: "README.md".to_string(),
        goal: "g".to_string(),
        verify: "v".to_string(),
        max_iterations: 3,
        source_artifact_hash: "h".to_string(),
        started_at_unix: 1,
        finished_at_unix: None,
        status: RunStatus::Running,
        iterations: 1,
        final_record_path: None,
        final_artifact_path: Some("run-1/iteration_1/workspace/README.md".to_string()),
        summary_path: Some("run-1/summary.md".to_string()),
        hooks: HooksConfig::default(),
    };
    let outcomes = vec![IterationOutcome {
        iteration: 1,
        validation: VerifyResult { passed: true, returncode: 0, stdout: String::new(), stderr: String::new() },
        remaining_delta: vec![],
    }];
    assert_eq!(
        render_inspection(&m, &outcomes),
        "Run: run-1\nStatus: Running\nArtifact: README.md\nGoal: g\nIterations: 1\nFinal artifact: run-1/iteration_1/workspace/README.md\nSummary: run-1/summary.md\nIteration 1: passed=true returncode=0\n"
    );
    let outcome = ApplyOutcome {
        run_id: "run-1".to_string(),
        iteration: 1,
        artifact: "README.md".to_string(),
        source_path: "s".to_string(),
        candidate_path: "c".to_string(),
        applied: true,
        dry_run: false,
        verification: Some(VerifyResult { passed: false, returncode: 1, stdout: String::new(), stderr: String::new() }),
    };
    assert_eq!(
        render_apply_outcome(&outcome),
        "Run: run-1\nIteration: 1\nArtifact: README.md\nSource: s\nCandidate: c\nDry run: false\nApplied: true\nVerification: passed=false returncode=1\n"
    );
}

#[test]
fn profiles_list_names_and_descriptions() {
    let text = render_profiles();
    assert!(text.starts_with("default: single review agent, single writer, balanced defaults\n"));
    assert!(text.ends_with("multi-review: three read-only review agents: correctness, tests, docs\n"));
    assert_eq!(text.lines().count(), 5);
}

use loopsmith::run_state::{index_needs_scan, index_or_scanned};
use loopsmith::hooks::HooksConfig;
use loopsmith::record::IterationOutcome;
use loopsmith::run_state::{
    apply_outcome, check_candidate, check_source_unchanged, diff_result, latest_run_id,
    plan_apply, render_summary, render_text_diff, resolve_iteration, sort_index_entries,
    stable_hash_bytes, text_less, upsert_index, RunIndex, RunIndexEntry, RunManifest,
    RunStateError, RunStatus,
};
use loopsmith::verify::VerifyResult;

fn manifest(run_id: &str, started_at_unix: u64, status: RunStatus) -> RunManifest {
    RunManifest {
        run_id: run_id.to_string(),
        artifact: "README.md".to_string(),
        goal: "update README".to_string(),
        verify: "printf ok".to_string(),
        max_iterations: 3,
        source_artifact_hash: stable_hash_bytes(b"old\n"),
        started_at_unix,
        finished_at_unix: Some(started_at_unix + 1),
        status,
        iterations: 1,
        final_record_path: Some(format!("{run_id}/iteration_1/record.json")),
        final_artifact_path: Some(format!("{run_id}/iteration_1/workspace/README.md")),
        summary_path: Some(format!("{run_id}/summary.md")),
        hooks: HooksConfig::default(),
    }
}

fn ids(index: &RunIndex) -> Vec<String> {
    index.runs.iter().map(|e| e.run_id.clone()).collect()
}

#[test]
fn stable_hash_is_fnv1a_in_hex() {
    assert_eq!(stable_hash_bytes(b""), "cbf29ce484222325");
    assert_eq!(stable_hash_bytes(b"a"), "af63dc4c8601ec8c");
    assert_eq!(stable_hash_bytes(b"hello"), "a430d84680aabd0b");
    assert_eq!(stable_hash_bytes(b"old\n"), "19239db4754a52b4");
}

#[test]
fn workflow_latest_run_id_picks_newest_run() {
    let mut index = RunIndex { runs: Vec::new() };
    index = upsert_index(&index, &manifest("run-1", 1, RunStatus::Failed));
    index = upsert_index(&index, &manifest("run-2", 2, RunStatus::Passed));
    assert_eq!(latest_run_id(&index, "runs").unwrap(), "run-2");
}

#[test]
fn latest_run_id_breaks_ties_by_run_id() {
    let mut index = RunIndex { runs: Vec::new() };
    index = upsert_index(&index, &manifest("run-b", 5, RunStatus::Passed));
    index = upsert_index(&index, &manifest("run-a", 5, RunStatus::Passed));
    index = upsert_index(&index, &manifest("run-0", 4, RunStatus::Passed));
    assert_eq!(latest_run_id(&index, "runs").unwrap(), "run-b");
    assert_eq!(ids(&index), vec!["run-0", "run-a", "run-b"]);
}

#[test]
fn latest_run_id_of_empty_index_is_an_error() {
    let err = latest_run_id(&RunIndex { runs: Vec::new() }, "runs").unwrap_err();
    assert_eq!(err.message(), "no runs found in runs");
}

#[test]
fn upsert_replaces_the_entry_of_the_same_run() {
    let mut index = RunIndex { runs: Vec::new() };
    index = upsert_index(&index, &manifest("run-1", 1, RunStatus::Running));
    index = upsert_index(&index, &manifest("run-2", 2, RunStatus::Running));
    index = upsert_index(&index, &manifest("run-1", 1, RunStatus::Passed));
    assert_eq!(ids(&index), vec!["run-1", "run-2"]);
    assert_eq!(index.runs[0].status, RunStatus::Passed);
    assert_eq!(
        index.runs[0],
        RunIndexEntry::from_manifest(&manifest("run-1", 1, RunStatus::Passed))
    );
}

#[test]
fn sort_orders_by_start_then_id_stably() {
    let entry = |id: &str, t: u64, iterations: usize| RunIndexEntry {
        run_id: id.to_string(),
        artifact: "a".to_string(),
        status: RunStatus::Passed,
        started_at_unix: t,
        finished_at_unix: None,
        iterations,
        summary_path: None,
    };
    let sorted = sort_index_entries(&vec![
        entry("run-9", 3, 0),
        entry("run-10", 3, 1),
        entry("z", 1, 2),
        entry("run-9", 3, 3),
        entry("é", 2, 4),
        entry("f", 2, 5),
    ]);
    let order: Vec<(String, usize)> =
        sorted.iter().map(|e| (e.run_id.clone(), e.iterations)).collect();
    assert_eq!(
        order,
        vec![
            ("z".to_string(), 2),
            ("f".to_string(), 5),
            ("é".to_string(), 4),
            ("run-10".to_string(), 1),
            ("run-9".to_string(), 0),
            ("run-9".to_string(), 3),
        ]
    );
}

#[test]
fn text_order_is_string_order() {
    let words = ["", "a", "ab", "b", "B", "é", "e\u{301}", "runs", "run-1", "run-10", "日本"];
    for a in words {
        for b in words {
            assert_eq!(text_less(a, b), a.to_string() < b.to_string(), "{a} < {b}");
        }
    }
}

#[test]
fn resolve_iteration_defaults_to_last_and_checks_range() {
    assert_eq!(resolve_iteration(3, None).unwrap(), 3);
    assert_eq!(resolve_iteration(3, Some(2)).unwrap(), 2);
    assert_eq!(
        resolve_iteration(3, Some(0)).unwrap_err().message(),
        "iteration 0 is outside run range 1..=3"
    );
    assert_eq!(
        resolve_iteration(3, Some(4)).unwrap_err().message(),
        "iteration 4 is outside run range 1..=3"
    );
    assert!(matches!(
        resolve_iteration(0, None),
        Err(RunStateError::IterationOutOfRange { iteration: 0, iterations: 0 })
    ));
}

#[test]
fn workflow_diff_run_shows_source_and_candidate_lines() {
    let diff = diff_result(
        "run-1".to_string(),
        1,
        "README.md".to_string(),
        "source/README.md".to_string(),
        "runs/run-1/iteration_1/workspace/README.md".to_string(),
        "old\n",
        "new\n",
    );
    assert!(diff.changed);
    assert!(diff.diff.contains("-old"));
    assert!(diff.diff.contains("+new"));
    assert_eq!(
        diff.diff,
        "--- source/README.md\n+++ runs/run-1/iteration_1/workspace/README.md\n-old\n+new\n"
    );
}

#[test]
fn diff_of_equal_texts_says_no_changes() {
    assert_eq!(render_text_diff("a", "b", "same\n", "same\n"), "--- a\n+++ b\n(no changes)\n");
    let diff = diff_result(
        "r".to_string(),
        1,
        "x".to_string(),
        "a".to_string(),
        "b".to_string(),
        "x",
        "x",
    );
    assert!(!diff.changed);
}

#[test]
fn diff_lines_follow_str_lines() {
    let source = "one\r\ntwo\n\nthree\r";
    let candidate = "x";
    let mut expected = "--- s\n+++ c\n".to_string();
    for line in source.lines() {
        expected.push('-');
        expected.push_str(line);
        expected.push('\n');
    }
    for line in candidate.lines() {
        expected.push('+');
        expected.push_str(line);
        expected.push('\n');
    }
    assert_eq!(render_text_diff("s", "c", source, candidate), expected);
    assert_eq!(render_text_diff("s", "c", "", "a\n"), "--- s\n+++ c\n+a\n");
}

#[test]
fn workflow_apply_run_blocks_when_source_changed_since_run_started() {
    let recorded = stable_hash_bytes(b"old\n");
    let current = stable_hash_bytes(b"human change\n");
    let err = check_source_unchanged(&current, &recorded, false, "source/README.md").unwrap_err();
    assert!(err.message().contains("source artifact changed"));
    assert!(check_source_unchanged(&current, &recorded, true, "source/README.md").is_ok());
    assert!(check_source_unchanged(&recorded, &recorded, false, "source/README.md").is_ok());
}

#[test]
fn apply_needs_the_candidate() {
    assert!(check_candidate(true, "c").is_ok());
    assert_eq!(
        check_candidate(false, "runs/c").unwrap_err().message(),
        "candidate artifact missing: runs/c"
    );
}

#[test]
fn workflow_apply_run_dry_run_keeps_source_unchanged() {
    let mut m = manifest("run-1", 1, RunStatus::Passed);
    m.hooks.pre_apply = Some("printf pre > pre_apply.txt".to_string());
    let plan = plan_apply(&m, true, true);
    assert!(!plan.copy_candidate);
    assert_eq!(plan.pre_apply, None);
    assert_eq!(plan.verify, None);
    assert_eq!(plan.post_apply, None);
    let outcome = apply_outcome(
        "run-1".to_string(),
        1,
        "README.md".to_string(),
        "s".to_string(),
        "c".to_string(),
        true,
        None,
    );
    assert!(outcome.dry_run);
    assert!(!outcome.applied);
}

#[test]
fn workflow_apply_run_executes_pre_and_post_apply_hooks() {
    let mut m = manifest("run-1", 1, RunStatus::Passed);
    m.hooks.pre_apply = Some("printf pre > pre_apply.txt".to_string());
    m.hooks.post_apply = Some("printf post > post_apply.txt".to_string());
    let plan = plan_apply(&m, false, true);
    assert!(plan.copy_candidate);
    assert_eq!(plan.pre_apply.as_deref(), Some("printf pre > pre_apply.txt"));
    assert_eq!(plan.post_apply.as_deref(), Some("printf post > post_apply.txt"));
    assert_eq!(plan.verify.as_deref(), Some("printf ok"));
    assert_eq!(plan_apply(&m, false, false).verify, None);
}

#[test]
fn summary_lists_status_and_iterations() {
    let m = manifest("run-1", 1, RunStatus::Failed);
    let outcomes = vec![
        IterationOutcome {
            iteration: 1,
            validation: VerifyResult {
                passed: false,
                returncode: 7,
                stdout: String::new(),
                stderr: String::new(),
            },
            remaining_delta: vec!["  still failing \n".to_string()],
        },
        IterationOutcome {
            iteration: 2,
            validation: VerifyResult {
                passed: false,
                returncode: -2,
                stdout: String::new(),
                stderr: String::new(),
            },
            remaining_delta: vec![" ".to_string()],
        },
    ];
    let summary = render_summary(&m, &outcomes);
    assert_eq!(
        summary,
        "# Loopsmith Run run-1\n\n- Status: Failed\n- Artifact: `README.md`\n- Goal: update README\n- Iterations: 1\n- Final validation passed: false\n- Final artifact: `run-1/iteration_1/workspace/README.md`\n- Final record: `run-1/iteration_1/record.json`\n\n## Iterations\n\n- Iteration 1: passed=false, returncode=7\n  - Remaining delta: `still failing`\n- Iteration 2: passed=false, returncode=-2\n"
    );
    let empty = render_summary(&m, &vec![]);
    assert!(empty.contains("- Final validation passed: false\n"));
    assert!(empty.ends_with("## Iterations\n\n"));
}

#[test]
fn stored_index_wins_over_scan() {
    let empty = RunIndex { runs: Vec::new() };
    assert!(index_needs_scan(&empty));
    let scanned = vec![
        RunIndexEntry::from_manifest(&manifest("run-2", 2, RunStatus::Passed)),
        RunIndexEntry::from_manifest(&manifest("run-1", 1, RunStatus::Failed)),
    ];
    let from_scan = index_or_scanned(empty, Some(scanned.clone()));
    assert_eq!(ids(&from_scan), vec!["run-1", "run-2"]);
    assert!(index_or_scanned(RunIndex { runs: Vec::new() }, None).runs.is_empty());
    let stored = RunIndex { runs: vec![scanned[0].clone()] };
    assert!(!index_needs_scan(&stored));
    assert_eq!(index_or_scanned(stored.clone(), Some(scanned)), stored);
}

#[test]
fn upsert_twice_is_upsert_once() {
    let mut index = RunIndex { runs: Vec::new() };
    index = upsert_index(&index, &manifest("run-2", 2, RunStatus::Passed));
    index = upsert_index(&index, &manifest("run-1", 1, RunStatus::Failed));
    let m = manifest("run-3", 1, RunStatus::Running);
    let once = upsert_index(&index, &m);
    let twice = upsert_index(&once, &m);
    assert_eq!(once, twice);
    assert_eq!(ids(&twice), vec!["run-1", "run-3", "run-2"]);
}

#[test]
fn stable_hash_is_sixteen_lowercase_hex_digits() {
    for bytes in [&b""[..], b"a", b"hello", b"\xff\x00\x10", b"a longer artifact text\n"] {
        let h = stable_hash_bytes(bytes);
        assert_eq!(h.len(), 16);
        assert!(h.chars().all(|c| c.is_ascii_digit() || ('a'..='f').contains(&c)));
    }
}

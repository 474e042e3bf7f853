use loopsmith::codex_exec::codex_args;
use loopsmith::config::LoopConfig;
use loopsmith::hooks::HooksConfig;

fn test_config() -> LoopConfig {
    LoopConfig {
        artifact: "README.md".to_string(),
        goal: "repair docs".to_string(),
        verify: "cargo test".to_string(),
        max_iterations: 3,
        model: "gpt-5.5".to_string(),
        review_model: None,
        repair_model: None,
        model_reasoning_effort: "high".to_string(),
        sandbox: "workspace-write".to_string(),
        approval_policy: "never".to_string(),
        profile: None,
        review_agents: Vec::new(),
        hooks: HooksConfig::default(),
    }
}

#[test]
fn codex_args_include_schema_and_output_file() {
    let args = codex_args("schema.json", "answer.json", &test_config());

    assert_eq!(args[0], "-a");
    assert_eq!(args[1], "never");
    assert_eq!(args[2], "exec");
    assert_eq!(&args[0..3], ["-a", "never", "exec"]);
    assert!(args.contains(&"model_reasoning_effort=\"high\"".to_string()));
    assert!(args.contains(&"--sandbox".to_string()));
    assert!(args.contains(&"workspace-write".to_string()));
    assert!(args.contains(&"--output-schema".to_string()));
    assert!(args.contains(&"--output-last-message".to_string()));
    assert!(!args.contains(&"--ask-for-approval".to_string()));
    assert_eq!(args.last().unwrap(), "-");
}

#[test]
fn codex_args_list_every_setting_in_order() {
    let args = codex_args("run/schema.json", "run/answer.json", &test_config());
    assert_eq!(
        args,
        vec![
            "-a",
            "never",
            "exec",
            "--model",
            "gpt-5.5",
            "--config",
            "model_reasoning_effort=\"high\"",
            "--sandbox",
            "workspace-write",
            "--output-schema",
            "run/schema.json",
            "--output-last-message",
            "run/answer.json",
            "-",
        ]
    );
}

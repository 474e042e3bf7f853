use loopsmith::config::{
    default_approval_policy, default_max_iterations, default_model,
    default_model_reasoning_effort, default_sandbox, LoopConfig, ReviewAgentConfig,
    WorkflowProfile, BUILTIN_PROFILES, RECOMMENDED_CODEX_MODELS,
};
use loopsmith::hooks::HooksConfig;

fn valid_config() -> LoopConfig {
    LoopConfig {
        artifact: "README.md".to_string(),
        goal: "repair docs".to_string(),
        verify: "cargo test".to_string(),
        max_iterations: 3,
        model: "gpt-5.5".to_string(),
        review_model: None,
        repair_model: None,
        model_reasoning_effort: "low".to_string(),
        sandbox: "workspace-write".to_string(),
        approval_policy: "never".to_string(),
        profile: None,
        review_agents: Vec::new(),
        hooks: HooksConfig::default(),
    }
}

fn defaulted(artifact: &str, goal: &str, verify: &str) -> LoopConfig {
    LoopConfig {
        artifact: artifact.to_string(),
        goal: goal.to_string(),
        verify: verify.to_string(),
        max_iterations: default_max_iterations(),
        model: default_model(),
        review_model: None,
        repair_model: None,
        model_reasoning_effort: default_model_reasoning_effort(),
        sandbox: default_sandbox(),
        approval_policy: default_approval_policy(),
        profile: None,
        review_agents: Vec::new(),
        hooks: HooksConfig::default(),
    }
}

#[test]
fn multi_review_profile_expands_default_agents() {
    let config = LoopConfig {
        profile: Some("multi-review".to_string()),
        ..valid_config()
    };

    let agents = config.effective_review_agents();

    assert_eq!(agents.len(), 3);
    assert_eq!(agents[0].id, "correctness");
    assert_eq!(agents[1].id, "tests");
    assert_eq!(agents[2].id, "docs");
}

#[test]
fn review_phase_config_for_agent_prefers_agent_model() {
    let config = LoopConfig {
        review_model: Some("gpt-5.4".to_string()),
        ..valid_config()
    };
    let agent = ReviewAgentConfig {
        id: "tests".to_string(),
        model: Some("gpt-5.4-mini".to_string()),
        focus: Some("find missing tests".to_string()),
        model_reasoning_effort: Some("medium".to_string()),
    };

    let phase = config.review_phase_config_for(&agent);

    assert_eq!(phase.model, "gpt-5.4-mini");
    assert_eq!(phase.model_reasoning_effort, "medium");
}

#[test]
fn recommended_model_list_includes_current_codex_models() {
    assert!(RECOMMENDED_CODEX_MODELS.contains(&"gpt-5.5"));
    assert!(RECOMMENDED_CODEX_MODELS.contains(&"gpt-5.4"));
    assert!(RECOMMENDED_CODEX_MODELS.contains(&"gpt-5.4-mini"));
    assert!(RECOMMENDED_CODEX_MODELS.contains(&"gpt-5.3-codex-spark"));
}

#[test]
fn rejects_missing_verify() {
    let config = LoopConfig {
        verify: "".to_string(),
        ..valid_config()
    };

    let err = config.validate().unwrap_err().message();
    assert!(err.contains("verify"));
}

#[test]
fn rejects_missing_artifact() {
    let config = LoopConfig {
        artifact: " ".to_string(),
        ..valid_config()
    };

    let err = config.validate().unwrap_err().message();
    assert!(err.contains("artifact"));
}

#[test]
fn rejects_missing_goal() {
    let config = LoopConfig {
        goal: "\t".to_string(),
        ..valid_config()
    };

    let err = config.validate().unwrap_err().message();
    assert!(err.contains("goal"));
}

#[test]
fn rejects_zero_max_iterations() {
    let config = LoopConfig {
        max_iterations: 0,
        ..valid_config()
    };

    let err = config.validate().unwrap_err().message();
    assert!(err.contains("max_iterations"));
}

#[test]
fn rejects_missing_model() {
    let config = LoopConfig {
        model: " ".to_string(),
        ..valid_config()
    };

    let err = config.validate().unwrap_err().message();
    assert!(err.contains("model"));
}

#[test]
fn rejects_missing_phase_model() {
    let config = LoopConfig {
        review_model: Some("".to_string()),
        ..valid_config()
    };

    let err = config.validate().unwrap_err().message();
    assert!(err.contains("review_model"));
}

#[test]
fn rejects_unsupported_reasoning_effort() {
    let config = LoopConfig {
        model_reasoning_effort: "ultra".to_string(),
        ..valid_config()
    };

    let err = config.validate().unwrap_err().message();
    assert!(err.contains("unsupported model_reasoning_effort"));
}

#[test]
fn rejects_unsupported_sandbox() {
    let config = LoopConfig {
        sandbox: "full-auto".to_string(),
        ..valid_config()
    };

    let err = config.validate().unwrap_err().message();
    assert!(err.contains("unsupported sandbox"));
}

#[test]
fn rejects_unsupported_approval_policy() {
    let config = LoopConfig {
        approval_policy: "ask-for-approval".to_string(),
        ..valid_config()
    };

    let err = config.validate().unwrap_err().message();
    assert!(err.contains("unsupported approval_policy"));
}

#[test]
fn rejects_unsupported_profile() {
    let config = LoopConfig {
        profile: Some("wide-open".to_string()),
        ..valid_config()
    };

    let err = config.validate().unwrap_err().message();
    assert!(err.contains("unsupported profile"));
}

#[test]
fn rejects_unsafe_review_agent_id() {
    let config = LoopConfig {
        review_agents: vec![ReviewAgentConfig {
            id: "../escape".to_string(),
            model: None,
            focus: None,
            model_reasoning_effort: None,
        }],
        ..valid_config()
    };

    let err = config.validate().unwrap_err().message();
    assert!(err.contains("review_agents[0].id"));
}

#[test]
fn rejects_empty_hook_command() {
    let config = LoopConfig {
        hooks: HooksConfig {
            pre_run: Some(" ".to_string()),
            ..HooksConfig::default()
        },
        ..valid_config()
    };

    let err = config.validate().unwrap_err().message();
    assert!(err.contains("hooks.pre_run"));
}

#[test]
fn defaults_fill_a_minimal_config() {
    let config = defaulted("README.md", "remove stale setup guidance", "cargo test");

    assert!(config.validate().is_ok());
    assert_eq!(config.max_iterations, 3);
    assert_eq!(config.model, "gpt-5.5");
    assert_eq!(config.model_reasoning_effort, "low");
    assert_eq!(config.sandbox, "workspace-write");
    assert_eq!(config.approval_policy, "never");
    assert_eq!(config.effective_profile(), WorkflowProfile::Default);
    let agents = config.effective_review_agents();
    assert_eq!(agents.len(), 1);
    assert_eq!(agents[0].id, "default");
    assert_eq!(
        agents[0].focus.as_deref(),
        Some("review correctness, tests, docs, and safety at a balanced depth")
    );
}

#[test]
fn phase_configs_pick_phase_models() {
    let config = LoopConfig {
        review_model: Some("gpt-5.4".to_string()),
        repair_model: Some("gpt-5.4-mini".to_string()),
        model_reasoning_effort: "medium".to_string(),
        ..valid_config()
    };

    let review = config.review_phase_config();
    let repair = config.repair_phase_config();

    assert_eq!(config.model, "gpt-5.5");
    assert_eq!(review.model, "gpt-5.4");
    assert_eq!(review.review_model, None);
    assert_eq!(review.repair_model, None);
    assert_eq!(repair.model, "gpt-5.4-mini");
    assert_eq!(repair.model_reasoning_effort, "medium");
    assert!(repair.review_agents.is_empty());
}

#[test]
fn phase_configs_fall_back_to_model() {
    let config = valid_config();
    assert_eq!(config.review_phase_config().model, "gpt-5.5");
    assert_eq!(config.repair_phase_config().model, "gpt-5.5");
}

#[test]
fn review_phase_config_uses_first_profile_agent() {
    let config = LoopConfig {
        profile: Some("multi-review".to_string()),
        review_model: Some("gpt-5.5".to_string()),
        ..valid_config()
    };
    assert_eq!(config.review_phase_config().model, "gpt-5.4");
}

#[test]
fn configured_agents_override_profile() {
    let config = LoopConfig {
        profile: Some("multi-review".to_string()),
        review_agents: vec![
            ReviewAgentConfig {
                id: "correctness".to_string(),
                model: Some("gpt-5.4".to_string()),
                focus: Some("find bugs".to_string()),
                model_reasoning_effort: None,
            },
            ReviewAgentConfig {
                id: "tests".to_string(),
                model: Some("gpt-5.4-mini".to_string()),
                focus: Some("find missing tests".to_string()),
                model_reasoning_effort: None,
            },
        ],
        ..valid_config()
    };
    assert!(config.validate().is_ok());
    assert_eq!(config.effective_profile(), WorkflowProfile::MultiReview);
    let agents = config.effective_review_agents();
    assert_eq!(agents.len(), 2);
    assert_eq!(agents[1].focus.as_deref(), Some("find missing tests"));
}

#[test]
fn every_profile_names_its_agents() {
    let expected = [
        (WorkflowProfile::Default, "default"),
        (WorkflowProfile::QuickFix, "quick"),
        (WorkflowProfile::TestRepair, "tests"),
        (WorkflowProfile::DocsRepair, "docs"),
        (WorkflowProfile::MultiReview, "correctness"),
    ];
    for (profile, first_agent) in expected {
        let config = LoopConfig {
            profile: Some(profile.name().to_string()),
            ..valid_config()
        };
        assert_eq!(WorkflowProfile::parse(profile.name()), Some(profile));
        assert_eq!(config.effective_profile(), profile);
        assert_eq!(config.effective_review_agents()[0].id, first_agent);
    }
    assert_eq!(BUILTIN_PROFILES.len(), 5);
    assert_eq!(WorkflowProfile::parse("wide-open"), None);
    assert_eq!(
        WorkflowProfile::MultiReview.description(),
        "three read-only review agents: correctness, tests, docs"
    );
}

#[test]
fn unknown_profile_runs_default_agents() {
    let config = LoopConfig {
        profile: Some("wide-open".to_string()),
        ..valid_config()
    };
    assert_eq!(config.effective_profile(), WorkflowProfile::Default);
}

#[test]
fn error_messages_match_their_cases() {
    let err = |config: LoopConfig| config.validate().unwrap_err().message();
    assert_eq!(
        err(LoopConfig { artifact: "".to_string(), ..valid_config() }),
        "artifact is required"
    );
    assert_eq!(
        err(LoopConfig { max_iterations: 0, ..valid_config() }),
        "max_iterations must be at least 1"
    );
    assert_eq!(
        err(LoopConfig { repair_model: Some(" \n".to_string()), ..valid_config() }),
        "repair_model is required"
    );
    assert_eq!(
        err(LoopConfig { sandbox: "full-auto".to_string(), ..valid_config() }),
        "unsupported sandbox: full-auto"
    );
    let agent = |id: &str| ReviewAgentConfig {
        id: id.to_string(),
        model: None,
        focus: None,
        model_reasoning_effort: None,
    };
    assert_eq!(
        err(LoopConfig { review_agents: vec![agent("a"), agent("b"), agent("a")], ..valid_config() }),
        "duplicate review agent id: a"
    );
    assert_eq!(
        err(LoopConfig {
            review_agents: vec![
                agent("a"),
                ReviewAgentConfig { model: Some("".to_string()), ..agent("b") },
            ],
            ..valid_config()
        }),
        "review_agents[1].model is required"
    );
    assert_eq!(
        err(LoopConfig {
            review_agents: (0..12).map(|i| agent(&format!("a{i}"))).chain([ReviewAgentConfig {
                model_reasoning_effort: Some("max".to_string()),
                ..agent("z")
            }]).collect(),
            ..valid_config()
        }),
        "unsupported review_agents[12].model_reasoning_effort: max"
    );
    assert_eq!(
        err(LoopConfig { review_agents: vec![agent("")], ..valid_config() }),
        "review_agents[0].id must contain only ASCII letters, numbers, '-' or '_'"
    );
    assert_eq!(
        err(LoopConfig {
            hooks: HooksConfig { on_failure: Some("".to_string()), ..HooksConfig::default() },
            ..valid_config()
        }),
        "hooks.on_failure must not be empty"
    );
}

#[test]
fn checks_run_in_order() {
    let config = LoopConfig {
        goal: "".to_string(),
        sandbox: "full-auto".to_string(),
        ..valid_config()
    };
    assert_eq!(config.validate().unwrap_err().message(), "goal is required");
}

#[test]
fn accepts_supported_values() {
    for effort in ["low", "medium", "high", "xhigh"] {
        for sandbox in ["read-only", "workspace-write", "danger-full-access"] {
            for approval in ["untrusted", "on-request", "never"] {
                let config = LoopConfig {
                    model_reasoning_effort: effort.to_string(),
                    sandbox: sandbox.to_string(),
                    approval_policy: approval.to_string(),
                    ..valid_config()
                };
                assert!(config.validate().is_ok());
            }
        }
    }
    let config = LoopConfig {
        review_agents: vec![ReviewAgentConfig {
            id: "Agent_1-x".to_string(),
            model: Some("any-model".to_string()),
            focus: None,
            model_reasoning_effort: Some("xhigh".to_string()),
        }],
        hooks: HooksConfig { pre_run: Some("git diff --check".to_string()), ..HooksConfig::default() },
        ..valid_config()
    };
    assert!(config.validate().is_ok());
}

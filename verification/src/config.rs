//! The loop configuration: workflow profiles, review agents, phase
//! configurations, and validation.

use vstd::prelude::*;
use vstd::string::*;
use crate::hooks::{HooksConfig, hook_command, hook_name, opt_str_view};
use crate::text::{blank, is_blank, push_decimal, decimal, str_eq, string_of, chars_of};
use crate::util::{copy_opt, opt_view};

verus! {

/// The models the documentation recommends; any non-blank model name is accepted.
pub const RECOMMENDED_CODEX_MODELS: [&'static str; 4] = ["gpt-5.5", "gpt-5.4", "gpt-5.4-mini", "gpt-5.3-codex-spark"];

/// A built-in workflow: which review agents run when none are configured.
#[derive(Debug, Clone, Copy, PartialEq, Eq, Structural)]
pub enum WorkflowProfile {
    Default,
    QuickFix,
    TestRepair,
    DocsRepair,
    MultiReview,
}

/// The built-in profiles, in the order they are listed.
pub const BUILTIN_PROFILES: [WorkflowProfile; 5] = [
    WorkflowProfile::Default,
    WorkflowProfile::QuickFix,
    WorkflowProfile::TestRepair,
    WorkflowProfile::DocsRepair,
    WorkflowProfile::MultiReview,
];

/// The name by which a profile is configured.
pub open spec fn profile_name(p: WorkflowProfile) -> Seq<char> {
    match p {
        WorkflowProfile::Default => "default"@,
        WorkflowProfile::QuickFix => "quick-fix"@,
        WorkflowProfile::TestRepair => "test-repair"@,
        WorkflowProfile::DocsRepair => "docs-repair"@,
        WorkflowProfile::MultiReview => "multi-review"@,
    }
}

/// The one-line description of a profile.
pub open spec fn profile_description(p: WorkflowProfile) -> Seq<char> {
    match p {
        WorkflowProfile::Default => "single review agent, single writer, balanced defaults"@,
        WorkflowProfile::QuickFix => "single fast review agent for low-risk local repairs"@,
        WorkflowProfile::TestRepair => "single review agent focused on failing tests and coverage gaps"@,
        WorkflowProfile::DocsRepair => "single review agent focused on docs clarity and stale guidance"@,
        WorkflowProfile::MultiReview => "three read-only review agents: correctness, tests, docs"@,
    }
}

/// The profile configured by `value`, if any profile has that name.
pub open spec fn parse_profile(value: Seq<char>) -> Option<WorkflowProfile> {
    if value == "default"@ {
        Some(WorkflowProfile::Default)
    } else if value == "quick-fix"@ {
        Some(WorkflowProfile::QuickFix)
    } else if value == "test-repair"@ {
        Some(WorkflowProfile::TestRepair)
    } else if value == "docs-repair"@ {
        Some(WorkflowProfile::DocsRepair)
    } else if value == "multi-review"@ {
        Some(WorkflowProfile::MultiReview)
    } else {
        None
    }
}

impl WorkflowProfile {
    /// The name by which this profile is configured.
    pub fn name(self) -> (r: &'static str)
        ensures
            r@ == profile_name(self),
    {
        match self {
            WorkflowProfile::Default => "default",
            WorkflowProfile::QuickFix => "quick-fix",
            WorkflowProfile::TestRepair => "test-repair",
            WorkflowProfile::DocsRepair => "docs-repair",
            WorkflowProfile::MultiReview => "multi-review",
        }
    }

    /// A one-line description of this profile.
    pub fn description(self) -> (r: &'static str)
        ensures
            r@ == profile_description(self),
    {
        match self {
            WorkflowProfile::Default => "single review agent, single writer, balanced defaults",
            WorkflowProfile::QuickFix => "single fast review agent for low-risk local repairs",
            WorkflowProfile::TestRepair => "single review agent focused on failing tests and coverage gaps",
            WorkflowProfile::DocsRepair => "single review agent focused on docs clarity and stale guidance",
            WorkflowProfile::MultiReview => "three read-only review agents: correctness, tests, docs",
        }
    }

    /// The profile named `value`, or `None` when no profile has that name.
    pub fn parse(value: &str) -> (r: Option<WorkflowProfile>)
        ensures
            r == parse_profile(value@),
    {
        if str_eq(value, "default") {
            Some(WorkflowProfile::Default)
        } else if str_eq(value, "quick-fix") {
            Some(WorkflowProfile::QuickFix)
        } else if str_eq(value, "test-repair") {
            Some(WorkflowProfile::TestRepair)
        } else if str_eq(value, "docs-repair") {
            Some(WorkflowProfile::DocsRepair)
        } else if str_eq(value, "multi-review") {
            Some(WorkflowProfile::MultiReview)
        } else {
            None
        }
    }
}

/// A read-only review agent: its id, and optionally its own model, focus and
/// reasoning effort.
#[derive(Debug, Clone, PartialEq, Eq)]
pub struct ReviewAgentConfig {
    pub id: String,
    pub model: Option<String>,
    pub focus: Option<String>,
    pub model_reasoning_effort: Option<String>,
}

/// The text content of a review agent.
pub struct AgentView {
    pub id: Seq<char>,
    pub model: Option<Seq<char>>,
    pub focus: Option<Seq<char>>,
    pub model_reasoning_effort: Option<Seq<char>>,
}

impl View for ReviewAgentConfig {
    type V = AgentView;

    open spec fn view(&self) -> AgentView {
        AgentView {
            id: self.id@,
            model: opt_view(self.model),
            focus: opt_view(self.focus),
            model_reasoning_effort: opt_view(self.model_reasoning_effort),
        }
    }
}

impl ReviewAgentConfig {
    /// A copy of this agent.
    pub fn duplicate(&self) -> (r: ReviewAgentConfig)
        ensures
            r == *self,
    {
        ReviewAgentConfig {
            id: self.id.clone(),
            model: copy_opt(&self.model),
            focus: copy_opt(&self.focus),
            model_reasoning_effort: copy_opt(&self.model_reasoning_effort),
        }
    }
}

/// A copy of a list of agents.
pub fn copy_agents(agents: &Vec<ReviewAgentConfig>) -> (r: Vec<ReviewAgentConfig>)
    ensures
        r@ == agents@,
{
    let mut r: Vec<ReviewAgentConfig> = Vec::new();
    let mut i: usize = 0;
    while i < agents.len()
        invariant
            i <= agents.len(),
            r@ == agents@.take(i as int),
        decreases agents.len() - i,
    {
        r.push(agents[i].duplicate());
        assert(agents@.take(i + 1) =~= agents@.take(i as int).push(agents@[i as int]));
        i = i + 1;
    }
    assert(agents@.take(agents.len() as int) =~= agents@);
    r
}

/// The loop configuration read from a project's config file.
#[derive(Debug, Clone, PartialEq, Eq)]
pub struct LoopConfig {
    pub artifact: String,
    pub goal: String,
    pub verify: String,
    pub max_iterations: usize,
    pub model: String,
    pub review_model: Option<String>,
    pub repair_model: Option<String>,
    pub model_reasoning_effort: String,
    pub sandbox: String,
    pub approval_policy: String,
    pub profile: Option<String>,
    pub review_agents: Vec<ReviewAgentConfig>,
    pub hooks: HooksConfig,
}

/// The number of iterations when the config names none.
pub fn default_max_iterations() -> (r: usize)
    ensures
        r == 3,
{
    3
}

/// The model when the config names none.
pub fn default_model() -> (r: String)
    ensures
        r@ == "gpt-5.5"@,
{
    string_of("gpt-5.5")
}

/// The reasoning effort when the config names none.
pub fn default_model_reasoning_effort() -> (r: String)
    ensures
        r@ == "low"@,
{
    string_of("low")
}

/// The sandbox when the config names none.
pub fn default_sandbox() -> (r: String)
    ensures
        r@ == "workspace-write"@,
{
    string_of("workspace-write")
}

/// The approval policy when the config names none.
pub fn default_approval_policy() -> (r: String)
    ensures
        r@ == "never"@,
{
    string_of("never")
}

/// The review agents of the built-in profile `p`, as text.
pub open spec fn profile_agents(p: WorkflowProfile) -> Seq<AgentView> {
    match p {
        WorkflowProfile::MultiReview => seq![
            AgentView {
                id: "correctness"@,
                model: Some("gpt-5.4"@),
                focus: Some("find behavior bugs, edge cases, and regression risk"@),
                model_reasoning_effort: None,
            },
            AgentView {
                id: "tests"@,
                model: Some("gpt-5.4-mini"@),
                focus: Some("find missing tests and weak validation"@),
                model_reasoning_effort: None,
            },
            AgentView {
                id: "docs"@,
                model: Some("gpt-5.4-mini"@),
                focus: Some("find docs, usage, and acceptance gaps"@),
                model_reasoning_effort: None,
            },
        ],
        WorkflowProfile::QuickFix => seq![
            default_agent_view("quick"@, "find the smallest safe repair for a low-risk change"@),
        ],
        WorkflowProfile::TestRepair => seq![
            default_agent_view("tests"@, "focus on failing tests, test gaps, and validation output"@),
        ],
        WorkflowProfile::DocsRepair => seq![
            default_agent_view(
                "docs"@,
                "focus on documentation clarity, stale guidance, and examples"@,
            ),
        ],
        WorkflowProfile::Default => seq![
            default_agent_view(
                "default"@,
                "review correctness, tests, docs, and safety at a balanced depth"@,
            ),
        ],
    }
}

/// An agent with only an id and a focus.
pub open spec fn default_agent_view(id: Seq<char>, focus: Seq<char>) -> AgentView {
    AgentView { id, model: None, focus: Some(focus), model_reasoning_effort: None }
}

/// The views of a list of agents.
pub open spec fn agent_views(agents: Seq<ReviewAgentConfig>) -> Seq<AgentView> {
    agents.map_values(|a: ReviewAgentConfig| a@)
}

fn default_agent(id: &str, focus: &str) -> (a: ReviewAgentConfig)
    ensures
        a@ == default_agent_view(id@, focus@),
{
    ReviewAgentConfig {
        id: string_of(id),
        model: None,
        focus: Some(string_of(focus)),
        model_reasoning_effort: None,
    }
}

fn agent(id: &str, model: &str, focus: &str) -> (a: ReviewAgentConfig)
    ensures
        a@ == (AgentView {
            id: id@,
            model: Some(model@),
            focus: Some(focus@),
            model_reasoning_effort: None,
        }),
{
    ReviewAgentConfig {
        id: string_of(id),
        model: Some(string_of(model)),
        focus: Some(string_of(focus)),
        model_reasoning_effort: None,
    }
}

/// The profile a configuration runs: the named one, or `Default` when none is
/// named or the name is unknown.
pub open spec fn effective_profile_of(c: LoopConfig) -> WorkflowProfile {
    match c.profile {
        Some(p) => match parse_profile(p@) {
            Some(q) => q,
            None => WorkflowProfile::Default,
        },
        None => WorkflowProfile::Default,
    }
}

/// The review agents a configuration runs, as text: the configured ones, or the
/// profile's when none is configured.
pub open spec fn effective_agents_of(c: LoopConfig) -> Seq<AgentView> {
    if c.review_agents@.len() > 0 {
        agent_views(c.review_agents@)
    } else {
        profile_agents(effective_profile_of(c))
    }
}

/// Law: a configuration without review agents of its own runs its profile's
/// agents, each with the focus that the profile documents: one docs agent on
/// documentation for `docs-repair`, one tests agent on failing tests for
/// `test-repair`, one quick agent for `quick-fix`, the correctness, tests and
/// docs agents for `multi-review`, and the balanced default agent when no
/// profile, or an unknown one, is named.
pub proof fn law_profile_agents(c: LoopConfig)
    ensures
        c.review_agents@.len() == 0 && c.profile is Some && c.profile->0@ == "docs-repair"@
            ==> effective_agents_of(c) == seq![
            AgentView {
                id: "docs"@,
                model: None,
                focus: Some("focus on documentation clarity, stale guidance, and examples"@),
                model_reasoning_effort: None,
            },
        ],
        c.review_agents@.len() == 0 && c.profile is Some && c.profile->0@ == "test-repair"@
            ==> effective_agents_of(c) == seq![
            AgentView {
                id: "tests"@,
                model: None,
                focus: Some("focus on failing tests, test gaps, and validation output"@),
                model_reasoning_effort: None,
            },
        ],
        c.review_agents@.len() == 0 && c.profile is Some && c.profile->0@ == "quick-fix"@
            ==> effective_agents_of(c) == seq![
            AgentView {
                id: "quick"@,
                model: None,
                focus: Some("find the smallest safe repair for a low-risk change"@),
                model_reasoning_effort: None,
            },
        ],
        c.review_agents@.len() == 0 && c.profile is Some && c.profile->0@ == "multi-review"@
            ==> effective_agents_of(c) == seq![
            AgentView {
                id: "correctness"@,
                model: Some("gpt-5.4"@),
                focus: Some("find behavior bugs, edge cases, and regression risk"@),
                model_reasoning_effort: None,
            },
            AgentView {
                id: "tests"@,
                model: Some("gpt-5.4-mini"@),
                focus: Some("find missing tests and weak validation"@),
                model_reasoning_effort: None,
            },
            AgentView {
                id: "docs"@,
                model: Some("gpt-5.4-mini"@),
                focus: Some("find docs, usage, and acceptance gaps"@),
                model_reasoning_effort: None,
            },
        ],
        c.review_agents@.len() == 0 && (c.profile is None || parse_profile(c.profile->0@) is None)
            ==> effective_agents_of(c) == seq![
            AgentView {
                id: "default"@,
                model: None,
                focus: Some("review correctness, tests, docs, and safety at a balanced depth"@),
                model_reasoning_effort: None,
            },
        ],
{
    law_profile_names_round_trip(WorkflowProfile::Default);
    law_profile_names_round_trip(WorkflowProfile::QuickFix);
    law_profile_names_round_trip(WorkflowProfile::TestRepair);
    law_profile_names_round_trip(WorkflowProfile::DocsRepair);
    law_profile_names_round_trip(WorkflowProfile::MultiReview);
}

/// Law: the agents of two different built-in profiles never share a focus.
pub proof fn law_profile_focuses_differ(p: WorkflowProfile, q: WorkflowProfile, i: int, j: int)
    requires
        p != q,
        0 <= i < profile_agents(p).len(),
        0 <= j < profile_agents(q).len(),
    ensures
        profile_agents(p)[i].focus != profile_agents(q)[j].focus,
{
    reveal_strlit("find behavior bugs, edge cases, and regression risk");
    reveal_strlit("find missing tests and weak validation");
    reveal_strlit("find docs, usage, and acceptance gaps");
    reveal_strlit("find the smallest safe repair for a low-risk change");
    reveal_strlit("focus on failing tests, test gaps, and validation output");
    reveal_strlit("focus on documentation clarity, stale guidance, and examples");
    reveal_strlit("review correctness, tests, docs, and safety at a balanced depth");
    let a = profile_agents(p)[i].focus->0;
    let b = profile_agents(q)[j].focus->0;
    assert(a.len() != b.len() || a[5] != b[5]);
    assert(a != b);
}

/// Whether `s` is one of the supported reasoning efforts.
pub open spec fn supported_reasoning(s: Seq<char>) -> bool {
    s == "low"@ || s == "medium"@ || s == "high"@ || s == "xhigh"@
}

/// Whether `s` is one of the supported sandboxes.
pub open spec fn supported_sandbox(s: Seq<char>) -> bool {
    s == "read-only"@ || s == "workspace-write"@ || s == "danger-full-access"@
}

/// Whether `s` is one of the supported approval policies.
pub open spec fn supported_approval(s: Seq<char>) -> bool {
    s == "untrusted"@ || s == "on-request"@ || s == "never"@
}

/// Whether `c` is an ASCII letter, an ASCII digit, `-` or `_`.
pub open spec fn id_char(c: char) -> bool {
    ('a' <= c <= 'z') || ('A' <= c <= 'Z') || ('0' <= c <= '9') || c == '-' || c == '_'
}

/// Whether `s` may serve as a review agent id (it names a directory).
pub open spec fn valid_agent_id(s: Seq<char>) -> bool {
    !(is_blank(s) || !(forall|i: int| 0 <= i < s.len() ==> id_char(#[trigger] s[i])))
}

/// Why a configuration is refused.
#[derive(Debug, Clone, PartialEq, Eq)]
pub enum ConfigError {
    MissingArtifact,
    MissingGoal,
    MissingVerify,
    ZeroMaxIterations,
    MissingModel,
    MissingReviewModel,
    MissingRepairModel,
    UnsupportedReasoningEffort { value: String },
    UnsupportedSandbox { value: String },
    UnsupportedApprovalPolicy { value: String },
    UnsupportedProfile { value: String },
    InvalidAgentId { index: usize },
    DuplicateAgentId { id: String },
    MissingAgentModel { index: usize },
    UnsupportedAgentReasoningEffort { index: usize, value: String },
    EmptyHook { name: String },
}

/// The first problem with the agent at position `i`, given the agents before it.
pub open spec fn agent_error(agents: Seq<ReviewAgentConfig>, i: int) -> Option<ConfigError> {
    let a = agents[i];
    if !valid_agent_id(a.id@) {
        Some(ConfigError::InvalidAgentId { index: i as usize })
    } else if exists|j: int| 0 <= j < i && (#[trigger] agents[j]).id@ == a.id@ {
        Some(ConfigError::DuplicateAgentId { id: a.id })
    } else if a.model is Some && is_blank(a.model->0@) {
        Some(ConfigError::MissingAgentModel { index: i as usize })
    } else if a.model_reasoning_effort is Some && !supported_reasoning(
        a.model_reasoning_effort->0@,
    ) {
        Some(
            ConfigError::UnsupportedAgentReasoningEffort {
                index: i as usize,
                value: a.model_reasoning_effort->0,
            },
        )
    } else {
        None
    }
}

/// The first problem among the first `n` agents.
pub open spec fn agents_error(agents: Seq<ReviewAgentConfig>, n: nat) -> Option<ConfigError>
    decreases n,
{
    if n == 0 {
        None
    } else {
        match agents_error(agents, (n - 1) as nat) {
            Some(e) => Some(e),
            None => agent_error(agents, n - 1),
        }
    }
}

/// Once an agent is refused, later agents do not change the first problem.
proof fn lemma_agents_error_settles(agents: Seq<ReviewAgentConfig>, m: nat, n: nat)
    requires
        m <= n,
        agents_error(agents, m) is Some,
    ensures
        agents_error(agents, n) == agents_error(agents, m),
    decreases n - m,
{
    if m < n {
        lemma_agents_error_settles(agents, m, (n - 1) as nat);
    }
}

/// Once a hook is refused, later hooks do not change the first problem.
proof fn lemma_hooks_error_settles(h: HooksConfig, m: nat, n: nat)
    requires
        m <= n,
        hooks_error(h, m) is Some,
    ensures
        hooks_error(h, n) == hooks_error(h, m),
    decreases n - m,
{
    if m < n {
        lemma_hooks_error_settles(h, m, (n - 1) as nat);
    }
}

/// The first blank hook command among the first `n` lifecycle events.
pub open spec fn hooks_error(h: HooksConfig, n: nat) -> Option<ConfigError>
    decreases n,
{
    if n == 0 {
        None
    } else {
        match hooks_error(h, (n - 1) as nat) {
            Some(e) => Some(e),
            None => {
                let k = n - 1;
                if hook_command(h, k) is Some && is_blank(hook_command(h, k)->0@) {
                    Some(ConfigError::EmptyHook { name: hook_name_string(k) })
                } else {
                    None
                }
            },
        }
    }
}

/// A string whose text is the name of the `k`-th lifecycle event.
pub open spec fn hook_name_string(k: int) -> String {
    choose|s: String| s@ == hook_name(k)
}

/// The first problem with the settings checked before the review agents, in
/// this order: artifact, goal, verify, max_iterations, the models, reasoning
/// effort, sandbox, approval policy, profile.
pub open spec fn settings_error(c: LoopConfig) -> Option<ConfigError> {
    if is_blank(c.artifact@) {
        Some(ConfigError::MissingArtifact)
    } else if is_blank(c.goal@) {
        Some(ConfigError::MissingGoal)
    } else if is_blank(c.verify@) {
        Some(ConfigError::MissingVerify)
    } else if c.max_iterations == 0 {
        Some(ConfigError::ZeroMaxIterations)
    } else if is_blank(c.model@) {
        Some(ConfigError::MissingModel)
    } else if c.review_model is Some && is_blank(c.review_model->0@) {
        Some(ConfigError::MissingReviewModel)
    } else if c.repair_model is Some && is_blank(c.repair_model->0@) {
        Some(ConfigError::MissingRepairModel)
    } else if !supported_reasoning(c.model_reasoning_effort@) {
        Some(ConfigError::UnsupportedReasoningEffort { value: c.model_reasoning_effort })
    } else if !supported_sandbox(c.sandbox@) {
        Some(ConfigError::UnsupportedSandbox { value: c.sandbox })
    } else if !supported_approval(c.approval_policy@) {
        Some(ConfigError::UnsupportedApprovalPolicy { value: c.approval_policy })
    } else if c.profile is Some && parse_profile(c.profile->0@) is None {
        Some(ConfigError::UnsupportedProfile { value: c.profile->0 })
    } else {
        None
    }
}

/// The first problem with a configuration: its settings, then each review
/// agent in order, then each hook in order.
pub open spec fn config_error(c: LoopConfig) -> Option<ConfigError> {
    match settings_error(c) {
        Some(e) => Some(e),
        None => match agents_error(c.review_agents@, c.review_agents@.len()) {
            Some(e) => Some(e),
            None => hooks_error(c.hooks, 5),
        },
    }
}

/// Two errors that report the same thing, strings compared by their text.
pub open spec fn same_error(a: ConfigError, b: ConfigError) -> bool {
    match (a, b) {
        (
            ConfigError::UnsupportedReasoningEffort { value: x },
            ConfigError::UnsupportedReasoningEffort { value: y },
        ) => x@ == y@,
        (ConfigError::UnsupportedSandbox { value: x }, ConfigError::UnsupportedSandbox {
            value: y,
        }) => x@ == y@,
        (
            ConfigError::UnsupportedApprovalPolicy { value: x },
            ConfigError::UnsupportedApprovalPolicy { value: y },
        ) => x@ == y@,
        (ConfigError::UnsupportedProfile { value: x }, ConfigError::UnsupportedProfile {
            value: y,
        }) => x@ == y@,
        (ConfigError::DuplicateAgentId { id: x }, ConfigError::DuplicateAgentId { id: y }) => x@
            == y@,
        (
            ConfigError::UnsupportedAgentReasoningEffort { index: i, value: x },
            ConfigError::UnsupportedAgentReasoningEffort { index: j, value: y },
        ) => i == j && x@ == y@,
        (ConfigError::EmptyHook { name: x }, ConfigError::EmptyHook { name: y }) => x@ == y@,
        _ => a == b,
    }
}

/// The text that reports a configuration error.
pub open spec fn error_text(e: ConfigError) -> Seq<char> {
    match e {
        ConfigError::MissingArtifact => "artifact is required"@,
        ConfigError::MissingGoal => "goal is required"@,
        ConfigError::MissingVerify => "verify is required"@,
        ConfigError::ZeroMaxIterations => "max_iterations must be at least 1"@,
        ConfigError::MissingModel => "model is required"@,
        ConfigError::MissingReviewModel => "review_model is required"@,
        ConfigError::MissingRepairModel => "repair_model is required"@,
        ConfigError::UnsupportedReasoningEffort { value } => "unsupported model_reasoning_effort: "@
            + value@,
        ConfigError::UnsupportedSandbox { value } => "unsupported sandbox: "@ + value@,
        ConfigError::UnsupportedApprovalPolicy { value } => "unsupported approval_policy: "@
            + value@,
        ConfigError::UnsupportedProfile { value } => "unsupported profile: "@ + value@,
        ConfigError::InvalidAgentId { index } => "review_agents["@ + decimal(index as nat)
            + "].id must contain only ASCII letters, numbers, '-' or '_'"@,
        ConfigError::DuplicateAgentId { id } => "duplicate review agent id: "@ + id@,
        ConfigError::MissingAgentModel { index } => "review_agents["@ + decimal(index as nat)
            + "].model is required"@,
        ConfigError::UnsupportedAgentReasoningEffort { index, value } =>
            "unsupported review_agents["@ + decimal(index as nat) + "].model_reasoning_effort: "@
            + value@,
        ConfigError::EmptyHook { name } => "hooks."@ + name@ + " must not be empty"@,
    }
}

impl ConfigError {
    /// The message that reports this error.
    pub fn message(&self) -> (m: String)
        ensures
            m@ == error_text(*self),
    {
        let mut m = String::new();
        match self {
            ConfigError::MissingArtifact => m.append("artifact is required"),
            ConfigError::MissingGoal => m.append("goal is required"),
            ConfigError::MissingVerify => m.append("verify is required"),
            ConfigError::ZeroMaxIterations => m.append("max_iterations must be at least 1"),
            ConfigError::MissingModel => m.append("model is required"),
            ConfigError::MissingReviewModel => m.append("review_model is required"),
            ConfigError::MissingRepairModel => m.append("repair_model is required"),
            ConfigError::UnsupportedReasoningEffort { value } => {
                m.append("unsupported model_reasoning_effort: ");
                m.append(value.as_str());
            },
            ConfigError::UnsupportedSandbox { value } => {
                m.append("unsupported sandbox: ");
                m.append(value.as_str());
            },
            ConfigError::UnsupportedApprovalPolicy { value } => {
                m.append("unsupported approval_policy: ");
                m.append(value.as_str());
            },
            ConfigError::UnsupportedProfile { value } => {
                m.append("unsupported profile: ");
                m.append(value.as_str());
            },
            ConfigError::InvalidAgentId { index } => {
                m.append("review_agents[");
                push_decimal(&mut m, *index as u64);
                m.append("].id must contain only ASCII letters, numbers, '-' or '_'");
            },
            ConfigError::DuplicateAgentId { id } => {
                m.append("duplicate review agent id: ");
                m.append(id.as_str());
            },
            ConfigError::MissingAgentModel { index } => {
                m.append("review_agents[");
                push_decimal(&mut m, *index as u64);
                m.append("].model is required");
            },
            ConfigError::UnsupportedAgentReasoningEffort { index, value } => {
                m.append("unsupported review_agents[");
                push_decimal(&mut m, *index as u64);
                m.append("].model_reasoning_effort: ");
                m.append(value.as_str());
            },
            ConfigError::EmptyHook { name } => {
                m.append("hooks.");
                m.append(name.as_str());
                m.append(" must not be empty");
            },
        }
        m
    }
}

fn reasoning_supported(s: &str) -> (r: bool)
    ensures
        r == supported_reasoning(s@),
{
    str_eq(s, "low") || str_eq(s, "medium") || str_eq(s, "high") || str_eq(s, "xhigh")
}

fn agent_id_valid(s: &str) -> (r: bool)
    ensures
        r == valid_agent_id(s@),
{
    if blank(s) {
        return false;
    }
    let cs = chars_of(s);
    let mut i: usize = 0;
    while i < cs.len()
        invariant
            cs@ == s@,
            i <= cs.len(),
            forall|j: int| 0 <= j < i ==> id_char(#[trigger] cs@[j]),
        decreases cs.len() - i,
    {
        let c = cs[i];
        if !(('a' <= c && c <= 'z') || ('A' <= c && c <= 'Z') || ('0' <= c && c <= '9') || c
            == '-' || c == '_') {
            return false;
        }
        i = i + 1;
    }
    true
}

/// Why the agent at position `i` is refused, given the agents before it.
fn check_agent(agents: &Vec<ReviewAgentConfig>, i: usize) -> (r: Result<(), ConfigError>)
    requires
        i < agents.len(),
    ensures
        match agent_error(agents@, i as int) {
            Some(e) => r matches Err(f) && same_error(e, f),
            None => r is Ok,
        },
{
    let a = &agents[i];
    if !agent_id_valid(a.id.as_str()) {
        return Err(ConfigError::InvalidAgentId { index: i });
    }
    let mut j: usize = 0;
    while j < i
        invariant
            i < agents.len(),
            a == agents@[i as int],
            valid_agent_id(a.id@),
            j <= i,
            forall|k: int| 0 <= k < j ==> (#[trigger] agents@[k]).id@ != a.id@,
        decreases i - j,
    {
        if str_eq(agents[j].id.as_str(), a.id.as_str()) {
            assert(agents@[j as int].id@ == a.id@);
            return Err(ConfigError::DuplicateAgentId { id: a.id.clone() });
        }
        j = j + 1;
    }
    if let Some(model) = &a.model {
        if blank(model.as_str()) {
            return Err(ConfigError::MissingAgentModel { index: i });
        }
    }
    if let Some(reasoning) = &a.model_reasoning_effort {
        if !reasoning_supported(reasoning.as_str()) {
            return Err(
                ConfigError::UnsupportedAgentReasoningEffort { index: i, value: reasoning.clone() },
            );
        }
    }
    Ok(())
}

impl LoopConfig {
    /// The profile this configuration runs.
    pub fn effective_profile(&self) -> (p: WorkflowProfile)
        ensures
            p == effective_profile_of(*self),
    {
        match &self.profile {
            Some(name) => match WorkflowProfile::parse(name.as_str()) {
                Some(p) => p,
                None => WorkflowProfile::Default,
            },
            None => WorkflowProfile::Default,
        }
    }

    /// The review agents this configuration runs: the configured ones, or the
    /// profile's default agents when none is configured.
    pub fn effective_review_agents(&self) -> (r: Vec<ReviewAgentConfig>)
        ensures
            agent_views(r@) == effective_agents_of(*self),
            self.review_agents@.len() > 0 ==> r@ == self.review_agents@,
            r@.len() > 0,
    {
        if self.review_agents.len() > 0 {
            let r = copy_agents(&self.review_agents);
            return r;
        }
        let mut r: Vec<ReviewAgentConfig> = Vec::new();
        match self.effective_profile() {
            WorkflowProfile::MultiReview => {
                r.push(
                    agent(
                        "correctness",
                        "gpt-5.4",
                        "find behavior bugs, edge cases, and regression risk",
                    ),
                );
                r.push(agent("tests", "gpt-5.4-mini", "find missing tests and weak validation"));
                r.push(agent("docs", "gpt-5.4-mini", "find docs, usage, and acceptance gaps"));
            },
            WorkflowProfile::QuickFix => {
                r.push(default_agent("quick", "find the smallest safe repair for a low-risk change"));
            },
            WorkflowProfile::TestRepair => {
                r.push(
                    default_agent("tests", "focus on failing tests, test gaps, and validation output"),
                );
            },
            WorkflowProfile::DocsRepair => {
                r.push(
                    default_agent(
                        "docs",
                        "focus on documentation clarity, stale guidance, and examples",
                    ),
                );
            },
            WorkflowProfile::Default => {
                r.push(
                    default_agent(
                        "default",
                        "review correctness, tests, docs, and safety at a balanced depth",
                    ),
                );
            },
        }
        assert(agent_views(r@) =~= effective_agents_of(*self));
        r
    }

    /// The configuration of the review phase for `agent`: the agent's model, else
    /// the review model, else the model; the agent's reasoning effort if it has
    /// one; no phase models and no review agents.
    pub fn review_phase_config_for(&self, agent: &ReviewAgentConfig) -> (c: LoopConfig)
        ensures
            c.model == (if agent.model is Some {
                agent.model->0
            } else if self.review_model is Some {
                self.review_model->0
            } else {
                self.model
            }),
            c.model_reasoning_effort == (if agent.model_reasoning_effort is Some {
                agent.model_reasoning_effort->0
            } else {
                self.model_reasoning_effort
            }),
            c.review_model is None,
            c.repair_model is None,
            c.review_agents@.len() == 0,
            same_run_settings(c, *self),
    {
        let model = match &agent.model {
            Some(m) => m.clone(),
            None => match &self.review_model {
                Some(m) => m.clone(),
                None => self.model.clone(),
            },
        };
        let reasoning = match &agent.model_reasoning_effort {
            Some(r) => r.clone(),
            None => self.model_reasoning_effort.clone(),
        };
        self.phase_config(model, reasoning)
    }

    /// The configuration of the review phase for the first effective review agent.
    pub fn review_phase_config(&self) -> (c: LoopConfig)
        ensures
            ({
                let first = self.effective_first_agent();
                &&& c.model@ == (if first.model is Some {
                    first.model->0
                } else if self.review_model is Some {
                    self.review_model->0@
                } else {
                    self.model@
                })
                &&& c.model_reasoning_effort@ == (if first.model_reasoning_effort is Some {
                    first.model_reasoning_effort->0
                } else {
                    self.model_reasoning_effort@
                })
            }),
            c.review_model is None,
            c.repair_model is None,
            c.review_agents@.len() == 0,
            same_run_settings(c, *self),
    {
        let mut agents = self.effective_review_agents();
        let first = agents.remove(0);
        self.review_phase_config_for(&first)
    }

    /// The first review agent this configuration runs.
    pub open spec fn effective_first_agent(self) -> AgentView {
        effective_agents_of(self)[0]
    }

    /// The configuration of the repair phase: the repair model if set, else the
    /// model; no phase models and no review agents.
    pub fn repair_phase_config(&self) -> (c: LoopConfig)
        ensures
            c.model == (if self.repair_model is Some {
                self.repair_model->0
            } else {
                self.model
            }),
            c.model_reasoning_effort == self.model_reasoning_effort,
            c.review_model is None,
            c.repair_model is None,
            c.review_agents@.len() == 0,
            same_run_settings(c, *self),
    {
        let model = match &self.repair_model {
            Some(m) => m.clone(),
            None => self.model.clone(),
        };
        self.phase_config(model, self.model_reasoning_effort.clone())
    }

    fn phase_config(&self, model: String, model_reasoning_effort: String) -> (c: LoopConfig)
        ensures
            c.model == model,
            c.model_reasoning_effort == model_reasoning_effort,
            c.review_model is None,
            c.repair_model is None,
            c.review_agents@.len() == 0,
            same_run_settings(c, *self),
    {
        LoopConfig {
            artifact: self.artifact.clone(),
            goal: self.goal.clone(),
            verify: self.verify.clone(),
            max_iterations: self.max_iterations,
            model,
            review_model: None,
            repair_model: None,
            model_reasoning_effort,
            sandbox: self.sandbox.clone(),
            approval_policy: self.approval_policy.clone(),
            profile: copy_opt(&self.profile),
            review_agents: Vec::new(),
            hooks: self.hooks.duplicate(),
        }
    }

    /// Checks the configuration; the error is the first problem `config_error`
    /// finds.
    pub fn validate(&self) -> (r: Result<(), ConfigError>)
        ensures
            match config_error(*self) {
                Some(e) => r matches Err(f) && same_error(e, f),
                None => r is Ok,
            },
    {
        if blank(self.artifact.as_str()) {
            return Err(ConfigError::MissingArtifact);
        }
        if blank(self.goal.as_str()) {
            return Err(ConfigError::MissingGoal);
        }
        if blank(self.verify.as_str()) {
            return Err(ConfigError::MissingVerify);
        }
        if self.max_iterations == 0 {
            return Err(ConfigError::ZeroMaxIterations);
        }
        if blank(self.model.as_str()) {
            return Err(ConfigError::MissingModel);
        }
        if let Some(model) = &self.review_model {
            if blank(model.as_str()) {
                return Err(ConfigError::MissingReviewModel);
            }
        }
        if let Some(model) = &self.repair_model {
            if blank(model.as_str()) {
                return Err(ConfigError::MissingRepairModel);
            }
        }
        if !reasoning_supported(self.model_reasoning_effort.as_str()) {
            return Err(
                ConfigError::UnsupportedReasoningEffort { value: self.model_reasoning_effort.clone() },
            );
        }
        let sandbox = self.sandbox.as_str();
        if !(str_eq(sandbox, "read-only") || str_eq(sandbox, "workspace-write") || str_eq(
            sandbox,
            "danger-full-access",
        )) {
            return Err(ConfigError::UnsupportedSandbox { value: self.sandbox.clone() });
        }
        let approval = self.approval_policy.as_str();
        if !(str_eq(approval, "untrusted") || str_eq(approval, "on-request") || str_eq(
            approval,
            "never",
        )) {
            return Err(ConfigError::UnsupportedApprovalPolicy { value: self.approval_policy.clone() });
        }
        if let Some(profile) = &self.profile {
            if WorkflowProfile::parse(profile.as_str()).is_none() {
                return Err(ConfigError::UnsupportedProfile { value: profile.clone() });
            }
        }
        let mut i: usize = 0;
        while i < self.review_agents.len()
            invariant
                i <= self.review_agents.len(),
                settings_error(*self) is None,
                agents_error(self.review_agents@, i as nat) is None,
            decreases self.review_agents.len() - i,
        {
            match check_agent(&self.review_agents, i) {
                Ok(()) => {},
                Err(e) => {
                    proof {
                        lemma_agents_error_settles(
                            self.review_agents@,
                            (i + 1) as nat,
                            self.review_agents@.len(),
                        );
                    }
                    return Err(e);
                },
            }
            i = i + 1;
        }
        let commands = self.hooks.commands();
        let mut k: usize = 0;
        while k < 5
            invariant
                k <= 5,
                settings_error(*self) is None,
                agents_error(self.review_agents@, self.review_agents@.len()) is None,
                hooks_error(self.hooks, k as nat) is None,
                forall|n: int|
                    0 <= n < 5 ==> (#[trigger] commands@[n]).0@ == hook_name(n) && opt_str_view(
                        commands@[n].1,
                    ) == opt_view(hook_command(self.hooks, n)),
            decreases 5 - k,
        {
            let (name, command) = commands[k];
            if let Some(value) = command {
                if blank(value) {
                    let nm = string_of(name);
                    proof {
                        assert(nm@ == hook_name(k as int));
                        assert(exists|t: String| t@ == hook_name(k as int));
                        assert(hook_name_string(k as int)@ == hook_name(k as int));
                    }
                    let e = ConfigError::EmptyHook { name: nm };
                    proof {
                        lemma_hooks_error_settles(self.hooks, (k + 1) as nat, 5);
                    }
                    return Err(e);
                }
            }
            k = k + 1;
        }
        Ok(())
    }
}

/// Two configurations that agree on everything but the phase models and review agents.
pub open spec fn same_run_settings(a: LoopConfig, b: LoopConfig) -> bool {
    &&& a.artifact == b.artifact
    &&& a.goal == b.goal
    &&& a.verify == b.verify
    &&& a.max_iterations == b.max_iterations
    &&& a.sandbox == b.sandbox
    &&& a.approval_policy == b.approval_policy
    &&& a.profile == b.profile
    &&& a.hooks == b.hooks
}

/// Law: every built-in profile is configured by its own name, and its name
/// configures no other profile.
pub proof fn law_profile_names_round_trip(p: WorkflowProfile)
    ensures
        parse_profile(profile_name(p)) == Some(p),
{
    reveal_strlit("default");
    reveal_strlit("quick-fix");
    reveal_strlit("test-repair");
    reveal_strlit("docs-repair");
    reveal_strlit("multi-review");
    assert("quick-fix"@[0] != "default"@[0]);
    assert("test-repair"@[0] != "default"@[0]);
    assert("test-repair"@[0] != "quick-fix"@[0]);
    assert("docs-repair"@[1] != "default"@[1]);
    assert("docs-repair"@[0] != "quick-fix"@[0]);
    assert("docs-repair"@[0] != "test-repair"@[0]);
    assert("multi-review"@[0] != "default"@[0]);
    assert("multi-review"@[0] != "quick-fix"@[0]);
    assert("multi-review"@[0] != "test-repair"@[0]);
    assert("multi-review"@[0] != "docs-repair"@[0]);
}

proof fn lemma_no_agent_error(agents: Seq<ReviewAgentConfig>, n: nat, i: int)
    requires
        agents_error(agents, n) is None,
        0 <= i < n,
    ensures
        agent_error(agents, i) is None,
    decreases n,
{
    if i < n - 1 {
        lemma_no_agent_error(agents, (n - 1) as nat, i);
    }
}

proof fn lemma_literal_id(s: Seq<char>)
    requires
        s.len() > 0,
        forall|i: int| 0 <= i < s.len() ==> 'a' <= #[trigger] s[i] <= 'z',
    ensures
        valid_agent_id(s),
{
    assert(!is_blank(s)) by {
        assert(!crate::text::is_white_space(s[0]));
    }
}

/// Law: a configuration that validates runs review agents whose ids are
/// non-blank, made of ASCII letters, digits, `-` and `_` (so each names a
/// directory of its own), and pairwise different; and it runs at least one
/// iteration.
pub proof fn law_valid_config_agents(c: LoopConfig)
    requires
        config_error(c) is None,
    ensures
        c.max_iterations >= 1,
        effective_agents_of(c).len() > 0,
        forall|i: int|
            0 <= i < effective_agents_of(c).len() ==> valid_agent_id(
                #[trigger] effective_agents_of(c)[i].id,
            ),
        forall|i: int, j: int|
            0 <= i < j < effective_agents_of(c).len() ==> #[trigger] effective_agents_of(c)[i].id
                != #[trigger] effective_agents_of(c)[j].id,
{
    let agents = c.review_agents@;
    if agents.len() > 0 {
        assert(agents_error(agents, agents.len()) is None);
        assert forall|i: int| 0 <= i < effective_agents_of(c).len() implies valid_agent_id(
            #[trigger] effective_agents_of(c)[i].id,
        ) by {
            lemma_no_agent_error(agents, agents.len(), i);
        }
        assert forall|i: int, j: int|
            0 <= i < j < effective_agents_of(c).len() implies #[trigger] effective_agents_of(
            c,
        )[i].id != #[trigger] effective_agents_of(c)[j].id by {
            lemma_no_agent_error(agents, agents.len(), j);
            assert(agents[i].id@ == effective_agents_of(c)[i].id);
        }
    } else {
        reveal_strlit("correctness");
        reveal_strlit("tests");
        reveal_strlit("docs");
        reveal_strlit("quick");
        reveal_strlit("default");
        lemma_literal_id("correctness"@);
        lemma_literal_id("tests"@);
        lemma_literal_id("docs"@);
        lemma_literal_id("quick"@);
        lemma_literal_id("default"@);
    }
}

/// Everything a configuration must satisfy, stated as one condition per
/// setting: non-blank artifact, goal, verify command and model; at least one
/// iteration; non-blank phase models when set; a supported reasoning effort,
/// sandbox and approval policy; a known profile when one is named; every review
/// agent with a valid id, a non-blank model when set and a supported reasoning
/// effort when set; pairwise different agent ids; and no blank hook command.
pub open spec fn config_acceptable(c: LoopConfig) -> bool {
    let agents = c.review_agents@;
    &&& !is_blank(c.artifact@)
    &&& !is_blank(c.goal@)
    &&& !is_blank(c.verify@)
    &&& c.max_iterations >= 1
    &&& !is_blank(c.model@)
    &&& (c.review_model is Some ==> !is_blank(c.review_model->0@))
    &&& (c.repair_model is Some ==> !is_blank(c.repair_model->0@))
    &&& supported_reasoning(c.model_reasoning_effort@)
    &&& supported_sandbox(c.sandbox@)
    &&& supported_approval(c.approval_policy@)
    &&& (c.profile is Some ==> parse_profile(c.profile->0@) is Some)
    &&& forall|i: int| 0 <= i < agents.len() ==> agent_acceptable(#[trigger] agents[i])
    &&& forall|i: int, j: int|
        0 <= i < j < agents.len() ==> (#[trigger] agents[i]).id@ != (#[trigger] agents[j]).id@
    &&& forall|k: int|
        0 <= k < 5 && (#[trigger] hook_command(c.hooks, k)) is Some ==> !is_blank(
            hook_command(c.hooks, k)->0@,
        )
}

/// What a single review agent must satisfy on its own.
pub open spec fn agent_acceptable(a: ReviewAgentConfig) -> bool {
    &&& valid_agent_id(a.id@)
    &&& (a.model is Some ==> !is_blank(a.model->0@))
    &&& (a.model_reasoning_effort is Some ==> supported_reasoning(a.model_reasoning_effort->0@))
}

proof fn lemma_agents_error_none(agents: Seq<ReviewAgentConfig>, n: nat)
    requires
        n <= agents.len(),
    ensures
        (agents_error(agents, n) is None) <==> (forall|i: int|
            0 <= i < n ==> agent_acceptable(#[trigger] agents[i])) && (forall|i: int, j: int|
            0 <= i < j < n ==> (#[trigger] agents[i]).id@ != (#[trigger] agents[j]).id@),
    decreases n,
{
    if n > 0 {
        lemma_agents_error_none(agents, (n - 1) as nat);
        let j = n - 1;
        if agents_error(agents, n) is None {
            assert forall|i: int, k: int|
                0 <= i < k < n implies (#[trigger] agents[i]).id@ != (#[trigger] agents[k]).id@ by {
                if k == j {
                    assert(agent_error(agents, j) is None);
                    if agents[i].id@ == agents[k].id@ {
                        assert(exists|jj: int| 0 <= jj < j && (#[trigger] agents[jj]).id@ == agents[j].id@);
                    }
                }
            }
        }
    }
}

proof fn lemma_hooks_error_none(h: HooksConfig, n: nat)
    ensures
        (hooks_error(h, n) is None) <==> (forall|k: int|
            0 <= k < n && (#[trigger] hook_command(h, k)) is Some ==> !is_blank(
                hook_command(h, k)->0@,
            )),
    decreases n,
{
    if n > 0 {
        lemma_hooks_error_none(h, (n - 1) as nat);
    }
}

/// Law: a configuration validates exactly when it satisfies every condition of
/// `config_acceptable`.
pub proof fn law_validate_accepts_exactly(c: LoopConfig)
    ensures
        (config_error(c) is None) <==> config_acceptable(c),
{
    lemma_agents_error_none(c.review_agents@, c.review_agents@.len());
    lemma_hooks_error_none(c.hooks, 5);
}

} // verus!

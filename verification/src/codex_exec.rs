//! The command line of a `codex exec` call.

use vstd::prelude::*;
use vstd::string::*;
use crate::config::LoopConfig;
use crate::text::string_of;

verus! {

/// The texts of a list of strings.
pub open spec fn texts(v: Seq<String>) -> Seq<Seq<char>> {
    v.map_values(|s: String| s@)
}

/// The arguments of `codex` for one phase: approval policy, `exec`, model,
/// reasoning effort, sandbox, the schema file, the answer file, and `-` to read
/// the prompt from standard input.
pub open spec fn codex_args_text(
    schema_file: Seq<char>,
    answer_file: Seq<char>,
    config: LoopConfig,
) -> Seq<Seq<char>> {
    seq![
        "-a"@,
        config.approval_policy@,
        "exec"@,
        "--model"@,
        config.model@,
        "--config"@,
        "model_reasoning_effort=\""@ + config.model_reasoning_effort@ + "\""@,
        "--sandbox"@,
        config.sandbox@,
        "--output-schema"@,
        schema_file,
        "--output-last-message"@,
        answer_file,
        "-"@,
    ]
}

/// The arguments of `codex` for one phase of `config`, writing the answer that
/// `schema_file` describes to `answer_file`.
pub fn codex_args(schema_file: &str, answer_file: &str, config: &LoopConfig) -> (args: Vec<
    String,
>)
    ensures
        texts(args@) == codex_args_text(schema_file@, answer_file@, *config),
{
    let mut effort = string_of("model_reasoning_effort=\"");
    effort.append(config.model_reasoning_effort.as_str());
    effort.append("\"");
    let mut args: Vec<String> = Vec::new();
    args.push(string_of("-a"));
    args.push(config.approval_policy.clone());
    args.push(string_of("exec"));
    args.push(string_of("--model"));
    args.push(config.model.clone());
    args.push(string_of("--config"));
    args.push(effort);
    args.push(string_of("--sandbox"));
    args.push(config.sandbox.clone());
    args.push(string_of("--output-schema"));
    args.push(string_of(schema_file));
    args.push(string_of("--output-last-message"));
    args.push(string_of(answer_file));
    args.push(string_of("-"));
    assert(texts(args@) =~= codex_args_text(schema_file@, answer_file@, *config));
    args
}

} // verus!

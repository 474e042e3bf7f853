//! The texts that the command line prints about runs and profiles.

use vstd::prelude::*;
use vstd::string::*;
use crate::config::{BUILTIN_PROFILES, WorkflowProfile, profile_name, profile_description};
use crate::record::IterationOutcome;
use crate::run_state::{ApplyOutcome, RunManifest, push_status, status_text};
use crate::text::{bool_text, decimal, push_bool, push_decimal, push_signed_decimal, signed_decimal, string_of};

verus! {

/// The line `<label><path>` when there is a path.
pub open spec fn path_line(label: Seq<char>, path: Option<String>) -> Seq<char> {
    match path {
        Some(p) => label + p@ + "\n"@,
        None => seq![],
    }
}

fn push_path_line(out: &mut String, label: &str, path: &Option<String>)
    ensures
        final(out)@ == old(out)@ + path_line(label@, *path),
{
    if let Some(p) = path {
        out.append(label);
        out.append(p.as_str());
        out.append("\n");
    }
}

/// The line that `inspect` prints for one iteration.
pub open spec fn inspection_line(o: IterationOutcome) -> Seq<char> {
    "Iteration "@ + decimal(o.iteration as nat) + ": passed="@ + bool_text(o.validation.passed)
        + " returncode="@ + signed_decimal(o.validation.returncode as int) + "\n"@
}

/// The lines that `inspect` prints for the iterations, in order.
pub open spec fn inspection_lines(outcomes: Seq<IterationOutcome>) -> Seq<char>
    decreases outcomes.len(),
{
    if outcomes.len() == 0 {
        seq![]
    } else {
        inspection_lines(outcomes.drop_last()) + inspection_line(outcomes.last())
    }
}

/// Law: the iteration lines of two runs of records, one after the other, are
/// the lines of the first followed by those of the second; and a single record
/// gives the one line `Iteration <n>: passed=<bool> returncode=<code>`. So
/// every record gets exactly its own line, in record order.
pub proof fn law_inspection_lines(a: Seq<IterationOutcome>, b: Seq<IterationOutcome>, o: IterationOutcome)
    ensures
        inspection_lines(a + b) == inspection_lines(a) + inspection_lines(b),
        inspection_lines(seq![o]) == "Iteration "@ + decimal(o.iteration as nat) + ": passed="@
            + bool_text(o.validation.passed) + " returncode="@ + signed_decimal(
            o.validation.returncode as int,
        ) + "\n"@,
    decreases b.len(),
{
    assert(seq![o].drop_last() =~= Seq::<IterationOutcome>::empty());
    assert(seq![o].last() == o);
    assert(inspection_lines(Seq::<IterationOutcome>::empty()) =~= Seq::<char>::empty());
    assert(inspection_lines(seq![o]) =~= inspection_line(o));
    if b.len() == 0 {
        assert(a + b =~= a);
    } else {
        assert((a + b).drop_last() =~= a + b.drop_last());
        law_inspection_lines(a, b.drop_last(), o);
        assert(inspection_lines(a + b) =~= inspection_lines(a) + inspection_lines(b));
    }
}

/// The head of what `inspect` prints: the run, its status, artifact, goal,
/// iterations, final artifact and summary.
pub open spec fn inspection_head(m: RunManifest) -> Seq<char> {
    "Run: "@ + m.run_id@ + "\nStatus: "@ + status_text(m.status) + "\nArtifact: "@ + m.artifact@
        + "\nGoal: "@ + m.goal@ + "\nIterations: "@ + decimal(m.iterations as nat) + "\n"@
        + path_line("Final artifact: "@, m.final_artifact_path) + path_line(
        "Summary: "@,
        m.summary_path,
    )
}

fn push_inspection_head(out: &mut String, m: &RunManifest)
    ensures
        final(out)@ == old(out)@ + inspection_head(*m),
{
    out.append("Run: ");
    out.append(m.run_id.as_str());
    out.append("\nStatus: ");
    push_status(out, m.status);
    out.append("\nArtifact: ");
    out.append(m.artifact.as_str());
    out.append("\nGoal: ");
    out.append(m.goal.as_str());
    out.append("\nIterations: ");
    push_decimal(out, m.iterations as u64);
    out.append("\n");
    push_path_line(out, "Final artifact: ", &m.final_artifact_path);
    push_path_line(out, "Summary: ", &m.summary_path);
    assert(out@ =~= old(out)@ + inspection_head(*m));
}

/// What `inspect` prints about a run and its recorded iterations.
pub fn render_inspection(manifest: &RunManifest, outcomes: &Vec<IterationOutcome>) -> (s: String)
    ensures
        s@ == inspection_head(*manifest) + inspection_lines(outcomes@),
{
    let mut s = String::new();
    push_inspection_head(&mut s, manifest);
    let ghost head = s@;
    let mut k: usize = 0;
    while k < outcomes.len()
        invariant
            k <= outcomes.len(),
            s@ == head + inspection_lines(outcomes@.take(k as int)),
        decreases outcomes.len() - k,
    {
        assert(outcomes@.take(k + 1).drop_last() =~= outcomes@.take(k as int));
        let o = &outcomes[k];
        s.append("Iteration ");
        push_decimal(&mut s, o.iteration as u64);
        s.append(": passed=");
        push_bool(&mut s, o.validation.passed);
        s.append(" returncode=");
        push_signed_decimal(&mut s, o.validation.returncode);
        s.append("\n");
        assert(s@ =~= head + inspection_lines(outcomes@.take(k + 1)));
        k = k + 1;
    }
    assert(outcomes@.take(outcomes.len() as int) =~= outcomes@);
    s
}

/// What `apply` prints about its outcome.
pub open spec fn apply_text(o: ApplyOutcome) -> Seq<char> {
    "Run: "@ + o.run_id@ + "\nIteration: "@ + decimal(o.iteration as nat) + "\nArtifact: "@
        + o.artifact@ + "\nSource: "@ + o.source_path@ + "\nCandidate: "@ + o.candidate_path@
        + "\nDry run: "@ + bool_text(o.dry_run) + "\nApplied: "@ + bool_text(o.applied) + "\n"@
        + match o.verification {
        Some(v) => "Verification: passed="@ + bool_text(v.passed) + " returncode="@
            + signed_decimal(v.returncode as int) + "\n"@,
        None => seq![],
    }
}

/// What `apply` prints about its outcome.
pub fn render_apply_outcome(o: &ApplyOutcome) -> (s: String)
    ensures
        s@ == apply_text(*o),
{
    let mut s = string_of("Run: ");
    s.append(o.run_id.as_str());
    s.append("\nIteration: ");
    push_decimal(&mut s, o.iteration as u64);
    s.append("\nArtifact: ");
    s.append(o.artifact.as_str());
    s.append("\nSource: ");
    s.append(o.source_path.as_str());
    s.append("\nCandidate: ");
    s.append(o.candidate_path.as_str());
    s.append("\nDry run: ");
    push_bool(&mut s, o.dry_run);
    s.append("\nApplied: ");
    push_bool(&mut s, o.applied);
    s.append("\n");
    if let Some(v) = &o.verification {
        s.append("Verification: passed=");
        push_bool(&mut s, v.passed);
        s.append(" returncode=");
        push_signed_decimal(&mut s, v.returncode);
        s.append("\n");
    }
    assert(s@ =~= apply_text(*o));
    s
}

/// The line that `profiles` prints for one profile.
pub open spec fn profile_line(p: WorkflowProfile) -> Seq<char> {
    profile_name(p) + ": "@ + profile_description(p) + "\n"@
}

/// The lines that `profiles` prints, in order.
pub open spec fn profile_lines(ps: Seq<WorkflowProfile>) -> Seq<char>
    decreases ps.len(),
{
    if ps.len() == 0 {
        seq![]
    } else {
        profile_lines(ps.drop_last()) + profile_line(ps.last())
    }
}

/// What `profiles` prints: each built-in profile with its description.
pub fn render_profiles() -> (s: String)
    ensures
        s@ == profile_lines(BUILTIN_PROFILES@),
{
    let profiles = BUILTIN_PROFILES;
    let mut s = String::new();
    let mut k: usize = 0;
    while k < 5
        invariant
            k <= 5,
            profiles@ == BUILTIN_PROFILES@,
            s@ == profile_lines(profiles@.take(k as int)),
        decreases 5 - k,
    {
        assert(profiles@.take(k + 1).drop_last() =~= profiles@.take(k as int));
        let p = profiles[k];
        s.append(p.name());
        s.append(": ");
        s.append(p.description());
        s.append("\n");
        assert(s@ =~= profile_lines(profiles@.take(k + 1)));
        k = k + 1;
    }
    assert(profiles@.take(5) =~= profiles@);
    s
}

} // verus!

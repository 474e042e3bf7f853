//! Which entries of the source tree stay out of an iteration's workspace.

use vstd::prelude::*;
use vstd::string::*;
use crate::text::{has_prefix, starts_with, str_eq};

verus! {

/// Whether a directory entry named `name` is left out when the source tree is
/// copied into a workspace: version control, build output, earlier runs, and
/// Finder metadata.
pub open spec fn skipped(name: Seq<char>) -> bool {
    name == ".git"@ || name == "target"@ || has_prefix(name, "runs"@) || name == ".DS_Store"@
}

/// Whether the entry named `name` is left out of a workspace copy.
pub fn should_skip(name: &str) -> (r: bool)
    ensures
        r == skipped(name@),
{
    str_eq(name, ".git") || str_eq(name, "target") || starts_with(name, "runs") || str_eq(
        name,
        ".DS_Store",
    )
}

/// Law: an entry is left out of a workspace exactly when its name is `.git`,
/// `target` or `.DS_Store`, or begins with the four characters `runs`; every
/// other entry, such as `.gitignore` or `.github`, is copied.
pub proof fn law_skipped_names(name: Seq<char>)
    ensures
        skipped(name) <==> (name == ".git"@ || name == "target"@ || name == ".DS_Store"@ || (
        name.len() >= 4 && name[0] == 'r' && name[1] == 'u' && name[2] == 'n' && name[3] == 's')),
{
    reveal_strlit("runs");
    if has_prefix(name, "runs"@) {
        assert(name.take(4)[0] == name[0] && name.take(4)[1] == name[1]);
        assert(name.take(4)[2] == name[2] && name.take(4)[3] == name[3]);
    }
    if name.len() >= 4 {
        if name[0] == 'r' && name[1] == 'u' && name[2] == 'n' && name[3] == 's' {
            assert(name.take(4) =~= "runs"@);
        }
    }
}

} // verus!

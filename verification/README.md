# loopsmith

The verified core of Loopsmith, a command-line tool that runs an auditable
review, repair and verify loop around `codex exec` on one artifact of a
project: it copies the project into a candidate workspace, lets read-only
review agents and a single writer work on the copy, runs the project's
verification command, and records every iteration, until validation passes or
the iteration limit is reached. `inspect`, `diff` and `apply` then show and,
explicitly, apply a candidate.

- `src/` is the library, proved with Verus: configuration and its validation
  (`config`), hooks (`hooks`), the `codex` command line (`codex_exec`), the
  decisions of the loop as a state machine (`runner`), manifests, the run index,
  diffs, the apply rules and the run summary (`run_state`), the texts the
  command line prints (`report`), and the string helpers they share (`text`).
- `app/` is the program around it: the command line, JSON files, processes
  and the file system.
- `tests/` exercises the library.

The built-in profiles describe each of their read-only reviewing roles as a
"review agent" (for example "single review agent, single writer, balanced
defaults"), the same term the configuration uses for `review_agents`.

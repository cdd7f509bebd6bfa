# semverguard

Workspace orchestration for `cargo-semver-checks`: select the workspace crates to
check (all of them, or those changed since a git baseline), run the upstream checker
on each, and turn the outcome into text, JSON, SARIF or a receipt
(`sensor.report.v1`) with CI-friendly exit codes.

## Layout

- `src/` is the library, verified with Verus. Every function carries a contract (the clock and date readings promise nothing of their value):
  - `model`, `error`: configuration, reports and errors;
  - `paths`, `globs`, `classification`, `runner`: package selection, change
    scoping and classification of engine failures, and the runner that drives the
    workspace, git and engine ports;
  - `policy`, `findings`, `waivers`, `order`, `assemble`, `artifacts`, `capability`,
    `receipt`: baseline-error policy, exit codes, findings and fingerprints, waivers,
    ordering, and assembly of the receipt;
  - `comment`, `sarif`, `render`, `explain`, `receipt_source`: the PR comment, SARIF
    log, console text, finding explanations and receipt filtering;
  - `config`, `cli`, `operations`, `pipeline`, `promote`: configuration validation,
    command-line overrides, listing, the PR-mode skip rule, the pipeline and
    the promotion of `baseline.rev`;
  - `laws`: properties that span several functions, proved.
- `tests/` exercises the library on concrete values.
- `app/` is the `semverguard` command line: argument parsing, files, the `git`,
  `cargo metadata` and `cargo semver-checks` processes, progress display, TOML and
  JSON encoding.

Calls into `globset`, `sha2`, `hex`, `semver`, `time`, `toml`, `toml_edit` and `serde_json` stand behind small trusted
wrappers whose contracts say what those crates document.

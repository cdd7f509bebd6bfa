//! What the command-line front end decides: configuration overrides, progress
//! display, and the texts it prints.
use vstd::prelude::*;
use crate::artifacts::{artifact_index_matches, build_artifact_index};
use crate::assemble::{build_receipt_with_capabilities_versioned, exit_code_from_receipt, receipt_matches, spec_exit_code_from_receipt};
use crate::globs::strings_view;
use crate::receipt::{ArtifactIndex, CapabilityContext, SensorReportV1, ToolErrorFinding, Verdict, ctx_view};
use crate::model::{
    BaselineConfig, BaselineKind, EngineConfig, OutputConfig, OutputFormat, RunMode, ScopeMode, SemverguardConfig,
    VerdictStatus,
};
use crate::text::{chars_of, owned, push_char, push_str, string_from_chars};
use crate::waivers::{split_chars, split_on};

verus! {

/// When to show progress indicators.
#[derive(Debug, Clone, Copy, PartialEq, Eq, Structural)]
pub enum ProgressChoice {
    /// When stderr is a terminal.
    Auto,
    /// Always.
    Always,
    /// Never (plain lines instead).
    Never,
}

impl Default for ProgressChoice {
    fn default() -> (r: Self)
        ensures
            r == ProgressChoice::Auto,
    {
        ProgressChoice::Auto
    }
}

/// A progress reporter that shows nothing.
pub struct NoopProgress;

impl NoopProgress {
    /// A reporter that shows nothing.
    pub fn new() -> (r: Self) {
        NoopProgress
    }
}

/// A progress reporter that prints one line per event (for non-terminal output).
pub struct LineProgress;

impl LineProgress {
    /// A line-by-line reporter.
    pub fn new() -> (r: Self) {
        LineProgress
    }
}

/// Which progress reporter to use.
#[derive(Debug, Clone, Copy, PartialEq, Eq, Structural)]
pub enum ReporterKind {
    /// Show nothing.
    Noop,
    /// One line per event.
    Line,
    /// A spinner and a progress bar.
    Terminal,
}

/// The progress reporter for a choice: `never` shows nothing, `always` the
/// terminal display, `auto` the terminal display on a terminal and lines otherwise.
pub open spec fn spec_reporter_kind(choice: ProgressChoice, stderr_is_terminal: bool) -> ReporterKind {
    match choice {
        ProgressChoice::Never => ReporterKind::Noop,
        ProgressChoice::Always => ReporterKind::Terminal,
        ProgressChoice::Auto => if stderr_is_terminal {
            ReporterKind::Terminal
        } else {
            ReporterKind::Line
        },
    }
}

/// The progress reporter for a choice (see `spec_reporter_kind`).
pub fn progress_reporter_kind(choice: ProgressChoice, stderr_is_terminal: bool) -> (r: ReporterKind)
    ensures
        r == spec_reporter_kind(choice, stderr_is_terminal),
{
    match choice {
        ProgressChoice::Never => ReporterKind::Noop,
        ProgressChoice::Always => ReporterKind::Terminal,
        ProgressChoice::Auto => if stderr_is_terminal {
            ReporterKind::Terminal
        } else {
            ReporterKind::Line
        },
    }
}

/// Command-line overrides of a check run.
pub struct CheckOverrides {
    /// `--mode`.
    pub mode: Option<RunMode>,
    /// `--changed`.
    pub changed: bool,
    /// `--baseline-rev`.
    pub baseline_rev: Option<String>,
    /// `--baseline-version`.
    pub baseline_version: Option<String>,
    /// `--fail-fast`.
    pub fail_fast: bool,
    /// `--cargo-bin`.
    pub cargo_bin: Option<String>,
    /// `--engine-arg` (repeated).
    pub engine_args: Vec<String>,
    /// `--format`.
    pub format: Option<OutputFormat>,
    /// `--json`.
    pub json: Option<String>,
    /// `--sarif`.
    pub sarif: Option<String>,
    /// `--artifacts-dir`.
    pub artifacts_dir: Option<String>,
}

/// The lane after overrides.
pub open spec fn over_mode(c: SemverguardConfig, a: CheckOverrides) -> RunMode {
    match a.mode {
        Some(m) => m,
        None => c.mode,
    }
}

/// The output format before `--json` and `--sarif`: the cockpit lane forces a
/// receipt; otherwise `--format` wins.
pub open spec fn format_before_paths(c: SemverguardConfig, a: CheckOverrides) -> OutputFormat {
    let cockpit = over_mode(c, a) == RunMode::Cockpit;
    if cockpit {
        OutputFormat::Receipt
    } else {
        match a.format {
            Some(f) => f,
            None => c.output.format,
        }
    }
}

/// The output format after `--json` (text becomes both, unless `--format` was given
/// or the lane is cockpit).
pub open spec fn format_after_json(c: SemverguardConfig, a: CheckOverrides) -> OutputFormat {
    let f = format_before_paths(c, a);
    if a.json is Some && a.format is None && f == OutputFormat::Text && over_mode(c, a) != RunMode::Cockpit {
        OutputFormat::Both
    } else {
        f
    }
}

/// The output format after overrides (`--sarif` selects SARIF unless a receipt is wanted).
pub open spec fn over_format(c: SemverguardConfig, a: CheckOverrides) -> OutputFormat {
    let f = format_after_json(c, a);
    if a.sarif is Some && f != OutputFormat::Receipt {
        OutputFormat::Sarif
    } else {
        f
    }
}

/// Where JSON or SARIF goes after overrides.
pub open spec fn over_json_path(c: SemverguardConfig, a: CheckOverrides) -> Option<String> {
    let j = match a.json {
        Some(p) => Some(p),
        None => c.output.json_path,
    };
    if a.sarif is Some && format_after_json(c, a) != OutputFormat::Receipt {
        a.sarif
    } else {
        j
    }
}

/// The baseline kind after overrides (`--baseline-version` wins over `--baseline-rev`).
pub open spec fn over_kind(c: SemverguardConfig, a: CheckOverrides) -> BaselineKind {
    if a.baseline_version is Some {
        BaselineKind::CratesIo
    } else if a.baseline_rev is Some {
        BaselineKind::Git
    } else {
        c.baseline.kind
    }
}

/// Apply command-line overrides to a configuration: the lane, scope, baseline,
/// engine settings, output format and paths. The cockpit lane always produces a
/// receipt; `--json` turns text output into text and JSON; `--sarif` selects SARIF
/// output to its path unless a receipt is wanted.
pub fn apply_cli_overrides(cfg: &mut SemverguardConfig, args: &CheckOverrides)
    ensures
        final(cfg).mode == over_mode(*old(cfg), *args),
        final(cfg).output.format == over_format(*old(cfg), *args),
        final(cfg).output.json_path == over_json_path(*old(cfg), *args),
        final(cfg).scope.mode == (if args.changed {
            ScopeMode::Changed
        } else {
            old(cfg).scope.mode
        }),
        final(cfg).baseline.kind == over_kind(*old(cfg), *args),
        final(cfg).baseline.rev == (if args.baseline_rev is Some {
            args.baseline_rev
        } else {
            old(cfg).baseline.rev
        }),
        final(cfg).baseline.version == (if args.baseline_version is Some {
            args.baseline_version
        } else {
            old(cfg).baseline.version
        }),
        final(cfg).engine.fail_fast == (args.fail_fast || old(cfg).engine.fail_fast),
        final(cfg).engine.cargo_bin == (if args.cargo_bin is Some {
            args.cargo_bin
        } else {
            old(cfg).engine.cargo_bin
        }),
        final(cfg).engine.extra_args@ == old(cfg).engine.extra_args@ + args.engine_args@,
        final(cfg).output.artifacts_dir == (match args.artifacts_dir {
            Some(d) => d,
            None => old(cfg).output.artifacts_dir,
        }),
        final(cfg).baseline.root == old(cfg).baseline.root,
        final(cfg).baseline.rustdoc == old(cfg).baseline.rustdoc,
        final(cfg).baseline.on_error == old(cfg).baseline.on_error,
        final(cfg).scope.includes@ == old(cfg).scope.includes@,
        final(cfg).scope.excludes@ == old(cfg).scope.excludes@,
        final(cfg).scope.explicit_packages@ == old(cfg).scope.explicit_packages@,
        final(cfg).scope.skip_publish_false == old(cfg).scope.skip_publish_false,
        final(cfg).scope.skip_no_lib == old(cfg).scope.skip_no_lib,
        final(cfg).engine.parallel == old(cfg).engine.parallel,
        final(cfg).engine.dry_run == old(cfg).engine.dry_run,
        final(cfg).features@ == old(cfg).features@,
        final(cfg).output.pretty_json == old(cfg).output.pretty_json,
        final(cfg).output.warn_as_fail == old(cfg).output.warn_as_fail,
        final(cfg).output.color == old(cfg).output.color,
        final(cfg).output.verbosity == old(cfg).output.verbosity,
        final(cfg).waivers@ == old(cfg).waivers@,
{
    if let Some(m) = args.mode {
        cfg.mode = m;
    }
    if args.changed {
        cfg.scope.mode = ScopeMode::Changed;
    }
    apply_baseline_overrides(&mut cfg.baseline, args);
    apply_engine_overrides(&mut cfg.engine, args);
    let cockpit = cfg.mode.is_cockpit();
    apply_output_overrides(&mut cfg.output, cockpit, args);
}

fn apply_baseline_overrides(b: &mut BaselineConfig, args: &CheckOverrides)
    ensures
        final(b).kind == (if args.baseline_version is Some {
            BaselineKind::CratesIo
        } else if args.baseline_rev is Some {
            BaselineKind::Git
        } else {
            old(b).kind
        }),
        final(b).rev == (if args.baseline_rev is Some {
            args.baseline_rev
        } else {
            old(b).rev
        }),
        final(b).version == (if args.baseline_version is Some {
            args.baseline_version
        } else {
            old(b).version
        }),
        final(b).root == old(b).root,
        final(b).rustdoc == old(b).rustdoc,
        final(b).on_error == old(b).on_error,
{
    if let Some(rev) = &args.baseline_rev {
        b.kind = BaselineKind::Git;
        b.rev = Some(rev.clone());
    }
    if let Some(ver) = &args.baseline_version {
        b.kind = BaselineKind::CratesIo;
        b.version = Some(ver.clone());
    }
}

fn apply_engine_overrides(e: &mut EngineConfig, args: &CheckOverrides)
    ensures
        final(e).fail_fast == (args.fail_fast || old(e).fail_fast),
        final(e).cargo_bin == (if args.cargo_bin is Some {
            args.cargo_bin
        } else {
            old(e).cargo_bin
        }),
        final(e).extra_args@ == old(e).extra_args@ + args.engine_args@,
        final(e).parallel == old(e).parallel,
        final(e).dry_run == old(e).dry_run,
{
    if args.fail_fast {
        e.fail_fast = true;
    }
    if let Some(bin) = &args.cargo_bin {
        e.cargo_bin = Some(bin.clone());
    }
    let mut k: usize = 0;
    let ghost base = e.extra_args@;
    while k < args.engine_args.len()
        invariant
            k <= args.engine_args.len(),
            e.extra_args@ == base + args.engine_args@.take(k as int),
            e.fail_fast == (args.fail_fast || old(e).fail_fast),
            e.cargo_bin == (if args.cargo_bin is Some {
                args.cargo_bin
            } else {
                old(e).cargo_bin
            }),
            e.parallel == old(e).parallel,
            e.dry_run == old(e).dry_run,
        decreases args.engine_args.len() - k,
    {
        e.extra_args.push(args.engine_args[k].clone());
        assert(args.engine_args@.take(k + 1) =~= args.engine_args@.take(k as int).push(args.engine_args@[k as int]));
        assert(e.extra_args@ =~= base + args.engine_args@.take(k + 1));
        k += 1;
    }
    assert(args.engine_args@.take(args.engine_args.len() as int) =~= args.engine_args@);
}

/// The output format before `--json` and `--sarif`, in a lane.
pub open spec fn out_format_before_paths(o: OutputConfig, cockpit: bool, a: CheckOverrides) -> OutputFormat {
    if cockpit {
        OutputFormat::Receipt
    } else {
        match a.format {
            Some(f) => f,
            None => o.format,
        }
    }
}

fn apply_output_overrides(o: &mut OutputConfig, cockpit: bool, args: &CheckOverrides)
    ensures
        ({
            let f0 = out_format_before_paths(*old(o), cockpit, *args);
            let f1 = if args.json is Some && args.format is None && f0 == OutputFormat::Text && !cockpit {
                OutputFormat::Both
            } else {
                f0
            };
            let j1 = match args.json {
                Some(p) => Some(p),
                None => old(o).json_path,
            };
            &&& final(o).format == (if args.sarif is Some && f1 != OutputFormat::Receipt {
                OutputFormat::Sarif
            } else {
                f1
            })
            &&& final(o).json_path == (if args.sarif is Some && f1 != OutputFormat::Receipt {
                args.sarif
            } else {
                j1
            })
        }),
        final(o).artifacts_dir == (match args.artifacts_dir {
            Some(d) => d,
            None => old(o).artifacts_dir,
        }),
        final(o).pretty_json == old(o).pretty_json,
        final(o).warn_as_fail == old(o).warn_as_fail,
        final(o).color == old(o).color,
        final(o).verbosity == old(o).verbosity,
{
    if cockpit {
        o.format = OutputFormat::Receipt;
    } else {
        if let Some(f) = args.format {
            o.format = f;
        }
    }
    if let Some(p) = &args.json {
        o.json_path = Some(p.clone());
        if args.format.is_none() && o.format == OutputFormat::Text && !cockpit {
            o.format = OutputFormat::Both;
        }
    }
    if let Some(p) = &args.sarif {
        if o.format != OutputFormat::Receipt {
            o.format = OutputFormat::Sarif;
            o.json_path = Some(p.clone());
        }
    }
    if let Some(d) = &args.artifacts_dir {
        o.artifacts_dir = d.clone();
    }
}

/// A line without its carriage return, when it has one.
pub open spec fn strip_cr(l: Seq<char>) -> Seq<char> {
    if l.len() > 0 && l.last() == '\r' {
        l.drop_last()
    } else {
        l
    }
}

/// The lines of a text, as `str::lines` gives them: split at `\n`, a `\r` before
/// the `\n` removed, and no empty last line after a final `\n`.
pub open spec fn spec_lines(s: Seq<char>) -> Seq<Seq<char>> {
    let parts = split_on(s, '\n');
    let n = parts.len();
    let ended = parts.take(n - 1).map_values(|l: Seq<char>| strip_cr(l));
    if parts[n - 1].len() == 0 {
        ended
    } else {
        ended.push(parts[n - 1])
    }
}

/// The lines of a text (see `spec_lines`).
pub fn text_lines(s: &str) -> (r: Vec<Vec<char>>)
    ensures
        r@.map_values(|l: Vec<char>| l@) == spec_lines(s@),
{
    let cs = chars_of(s);
    let parts = split_chars(&cs, '\n');
    let ghost pv = parts@.map_values(|p: Vec<char>| p@);
    proof {
        crate::waivers::lemma_split_nonempty(s@, '\n');
    }
    let n = parts.len();
    let mut out: Vec<Vec<char>> = Vec::new();
    let mut i: usize = 0;
    while i + 1 < n
        invariant
            n == parts.len(),
            n >= 1,
            i < n,
            pv == parts@.map_values(|p: Vec<char>| p@),
            pv == split_on(s@, '\n'),
            out@.map_values(|l: Vec<char>| l@) == pv.take(i as int).map_values(|l: Seq<char>| strip_cr(l)),
        decreases n - i,
    {
        let p = &parts[i];
        let mut line: Vec<char> = Vec::new();
        let len = p.len();
        let keep = if len > 0 && p[len - 1] == '\r' {
            len - 1
        } else {
            len
        };
        let mut j: usize = 0;
        while j < keep
            invariant
                j <= keep,
                keep <= p.len(),
                line@ == p@.take(j as int),
            decreases keep - j,
        {
            line.push(p[j]);
            assert(p@.take(j + 1) =~= p@.take(j as int).push(p@[j as int]));
            j += 1;
        }
        assert(line@ =~= strip_cr(pv[i as int]));
        let ghost before = out@.map_values(|l: Vec<char>| l@);
        out.push(line);
        assert(out@.map_values(|l: Vec<char>| l@) =~= before.push(strip_cr(pv[i as int])));
        assert(pv.take(i + 1).map_values(|l: Seq<char>| strip_cr(l)) =~= pv.take(i as int).map_values(
            |l: Seq<char>| strip_cr(l),
        ).push(strip_cr(pv[i as int])));
        i += 1;
    }
    let last = &parts[n - 1];
    if last.len() > 0 {
        let ghost before = out@.map_values(|l: Vec<char>| l@);
        out.push(last.clone());
        assert(out@.map_values(|l: Vec<char>| l@) =~= before.push(pv[n - 1]));
    }
    out
}

/// Texts joined with `\n`.
pub open spec fn join_nl(ls: Seq<Seq<char>>) -> Seq<char> {
    crate::comment::join_lines(ls)
}

fn join_char_lines(ls: &Vec<Vec<char>>, start: usize, prefix: &str) -> (r: String)
    requires
        start <= ls.len(),
    ensures
        r@ == join_nl(ls@.map_values(|l: Vec<char>| l@).skip(start as int).map_values(|l: Seq<char>| prefix@ + l)),
{
    let ghost lv = ls@.map_values(|l: Vec<char>| l@).skip(start as int).map_values(|l: Seq<char>| prefix@ + l);
    let mut out = String::new();
    let mut i: usize = start;
    while i < ls.len()
        invariant
            start <= i <= ls.len(),
            lv == ls@.map_values(|l: Vec<char>| l@).skip(start as int).map_values(|l: Seq<char>| prefix@ + l),
            out@ == join_nl(lv.take(i - start)),
        decreases ls.len() - i,
    {
        assert(lv.take(i + 1 - start).drop_last() =~= lv.take(i - start));
        assert(lv.take(i + 1 - start).last() == prefix@ + ls@[i as int]@);
        if i > start {
            push_char(&mut out, '\n');
        } else {
            assert(out@ =~= seq![]);
        }
        push_str(&mut out, prefix);
        let t = string_from_chars(&ls[i]);
        push_str(&mut out, t.as_str());
        i += 1;
    }
    assert(lv.take(ls.len() - start) =~= lv);
    out
}

/// The last `n` lines of a text, joined with `\n`.
pub open spec fn spec_tail_lines(s: Seq<char>, n: nat) -> Seq<char> {
    let ls = spec_lines(s);
    let start = if ls.len() > n {
        ls.len() - n
    } else {
        0
    };
    join_nl(ls.skip(start))
}

/// The last `n` lines of a text, joined with `\n`.
pub fn tail_lines(s: &str, n: usize) -> (r: String)
    ensures
        r@ == spec_tail_lines(s@, n as nat),
{
    let ls = text_lines(s);
    let start = if ls.len() > n {
        ls.len() - n
    } else {
        0
    };
    proof {
        reveal_strlit("");
    }
    let r = join_char_lines(&ls, start, "");
    let ghost lv = ls@.map_values(|l: Vec<char>| l@).skip(start as int);
    assert(lv.map_values(|l: Seq<char>| ""@ + l) =~= lv) by {
        assert(""@ =~= seq![]);
        assert forall|k: int| 0 <= k < lv.len() implies ""@ + lv[k] == lv[k] by {
            assert(""@ + lv[k] =~= lv[k]);
        }
    }
    r
}

/// Every line of a text with `prefix` in front, joined with `\n`.
pub open spec fn spec_indent(s: Seq<char>, prefix: Seq<char>) -> Seq<char> {
    join_nl(spec_lines(s).map_values(|l: Seq<char>| prefix + l))
}

/// Every line of a text with `prefix` in front, joined with `\n`.
pub fn indent(s: &str, prefix: &str) -> (r: String)
    ensures
        r@ == spec_indent(s@, prefix@),
{
    let ls = text_lines(s);
    let r = join_char_lines(&ls, 0, prefix);
    assert(spec_lines(s@).skip(0) =~= spec_lines(s@));
    r
}

/// The capability context reported when a check run fails before checking anything.
pub open spec fn spec_tool_error_context(config: SemverguardConfig, message: Seq<char>) -> (
    bool,
    Option<Seq<char>>,
    bool,
    Option<Seq<char>>,
    bool,
    Option<Seq<char>>,
    bool,
    bool,
) {
    (
        config.baseline.kind == BaselineKind::Git,
        None,
        false,
        Some("error: "@ + message),
        false,
        None,
        config.baseline.kind != BaselineKind::Git,
        false,
    )
}

/// The receipt of a check run that failed with a tool error before checking
/// anything: the error is its only finding, the baseline is unavailable, and the
/// configured waivers apply.
pub fn tool_error_receipt(
    message: &str,
    config: &SemverguardConfig,
    workspace_root: &str,
    artifacts_root: &str,
    sarif_requested: bool,
) -> (r: SensorReportV1)
    ensures
        exists|ai: ArtifactIndex, ctx: CapabilityContext, errs: Seq<ToolErrorFinding>, today: (i32, u8, u8), now: Seq<char>|
            #![trigger receipt_matches(r, None, errs, ai, config.baseline, workspace_root@, Some(ctx), None, config.waivers@, today, now)]
            artifact_index_matches(ai, workspace_root@, artifacts_root@, None, sarif_requested) && ctx_view(ctx)
                == spec_tool_error_context(*config, message@) && errs.len() == 1 && errs[0].message@ == message@
                && receipt_matches(
                r,
                None,
                errs,
                ai,
                config.baseline,
                workspace_root@,
                Some(ctx),
                None,
                config.waivers@,
                today,
                now,
            ),
{
    let mut errors: Vec<ToolErrorFinding> = Vec::new();
    errors.push(ToolErrorFinding::new(message));
    let index = build_artifact_index(workspace_root, artifacts_root, None, sarif_requested);
    let git = config.baseline.kind == BaselineKind::Git;
    let mut detail = owned("error: ");
    push_str(&mut detail, message);
    let ctx = CapabilityContext::new().with_git_available(git).with_baseline_available(false).with_baseline_detail(
        detail.as_str(),
    ).with_git_skipped(!git);
    build_receipt_with_capabilities_versioned(
        None,
        &errors,
        &index,
        &config.baseline,
        workspace_root,
        Some(&ctx),
        None,
        &config.waivers,
    )
}

/// The exit of a receipt run once the receipt was written (or not): the cockpit
/// lane exits `0` when the receipt was written and `1` otherwise; other lanes fail
/// with the write error, else exit with the receipt's code.
pub open spec fn spec_receipt_run_exit(
    cockpit: bool,
    write: Result<(), Seq<char>>,
    status: VerdictStatus,
    warn_as_fail: bool,
    tool_error: bool,
) -> Result<i32, Seq<char>> {
    if cockpit {
        Ok(if write is Ok {
            0i32
        } else {
            1i32
        })
    } else {
        match write {
            Err(e) => Err(e),
            Ok(_) => Ok(spec_exit_code_from_receipt(status, warn_as_fail, tool_error)),
        }
    }
}

/// The exit of a receipt run once the receipt was written (see `spec_receipt_run_exit`).
pub fn receipt_run_exit(
    cockpit: bool,
    write: Result<(), String>,
    verdict: &Verdict,
    warn_as_fail: bool,
    tool_error: bool,
) -> (r: Result<i32, String>)
    ensures
        match r {
            Ok(c) => spec_receipt_run_exit(cockpit, match write {
                Ok(u) => Ok(u),
                Err(e) => Err(e@),
            }, verdict.status, warn_as_fail, tool_error) == Ok::<i32, Seq<char>>(c),
            Err(e) => spec_receipt_run_exit(cockpit, match write {
                Ok(u) => Ok(u),
                Err(e) => Err(e@),
            }, verdict.status, warn_as_fail, tool_error) == Err::<i32, Seq<char>>(e@),
        },
{
    if cockpit {
        match write {
            Ok(_) => Ok(0),
            Err(_) => Ok(1),
        }
    } else {
        match write {
            Err(e) => Err(e),
            Ok(_) => Ok(exit_code_from_receipt(verdict, warn_as_fail, tool_error)),
        }
    }
}

} // verus!

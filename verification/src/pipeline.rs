//! The pipeline: run the checks, build the receipt, compute the exit code. It
//! writes nothing; the caller decides what to output.
use vstd::prelude::*;
use crate::artifacts::{artifact_index_matches, build_artifact_index};
use crate::assemble::{
    build_receipt_with_capabilities_versioned, deref_opt, exit_code_from_receipt, has_tool_error,
    receipt_matches, spec_exit_code_from_receipt, spec_has_tool_error,
};
use crate::capability::{build_capability_context, spec_capability_context};
use crate::classification::opt_str_view;
use crate::error::SemverguardError;
use crate::model::{
    BaselineKind, OutputFormat, RunMode, RunReport, SemverguardConfig, WaiverEntry,
};
use crate::paths::{join_path, spec_join};
use crate::policy::{exit_code_from_report, spec_exit_code_from_report};
use crate::receipt::{CapabilityContext, ArtifactIndex, SensorReportV1, ToolErrorFinding, ctx_view, findings_view, os};
use crate::runner::{
    GitProvider, ProgressCallback, RunArtifacts, SemverEngine, SemverguardRunner, WorkspaceProvider, run_outcome,
};
use crate::text::{owned, push_str};

verus! {

/// What a pipeline run works on.
pub struct PipelineOptions<P> {
    /// Workspace root.
    pub workspace_root: String,
    /// Resolved configuration.
    pub config: SemverguardConfig,
    /// Whether a SARIF report is wanted.
    pub sarif: bool,
    /// Tool version to report (the library's own by default).
    pub tool_version: Option<String>,
    /// Progress callback.
    pub progress: Option<P>,
}

/// The outcome of a pipeline run.
pub struct PipelineResult {
    /// The receipt.
    pub receipt: SensorReportV1,
    /// The run report, when the checks ran.
    pub report: Option<RunReport>,
    /// The exit code.
    pub exit_code: i32,
}

/// The capability context of a run that failed before checking anything.
pub open spec fn spec_failed_run_context(
    config: SemverguardConfig,
    git_available: bool,
    shallow_clone: bool,
    message: Seq<char>,
) -> (bool, Option<Seq<char>>, bool, Option<Seq<char>>, bool, Option<Seq<char>>, bool, bool) {
    (
        git_available,
        None,
        false,
        Some("error: "@ + message),
        shallow_clone,
        None,
        config.baseline.kind != BaselineKind::Git,
        false,
    )
}

/// Whether a pipeline outcome is the one for the runner's result `run`, started and
/// finished at the given times.
pub open spec fn pipeline_matches(
    r: Result<PipelineResult, SemverguardError>,
    workspace_root: Seq<char>,
    config: SemverguardConfig,
    sarif: bool,
    tool_version: Option<Seq<char>>,
    run: Result<RunArtifacts, SemverguardError>,
    git_available: bool,
    shallow_clone: bool,
    git_version: Option<Seq<char>>,
    resolved_mode: RunMode,
    started: Seq<char>,
    finished: Seq<char>,
) -> bool {
    let receipt_requested = config.output.format == OutputFormat::Receipt;
    let artifacts_dir = spec_join(workspace_root, config.output.artifacts_dir@);
    match run {
        Err(e) => if !receipt_requested {
            r == Err::<PipelineResult, SemverguardError>(e)
        } else {
            &&& r is Ok
            &&& r->Ok_0.report is None
            &&& r->Ok_0.exit_code == spec_exit_code_from_receipt(
                r->Ok_0.receipt.verdict.status,
                config.output.warn_as_fail,
                spec_has_tool_error(findings_view(r->Ok_0.receipt.findings@)),
            )
            &&& exists|ai: ArtifactIndex, ctx: CapabilityContext, errs: Seq<ToolErrorFinding>, today: (i32, u8, u8), now: Seq<char>|
                #![trigger receipt_matches(r->Ok_0.receipt, None, errs, ai, config.baseline, workspace_root, Some(ctx), tool_version, seq![], today, now)]
                artifact_index_matches(ai, workspace_root, artifacts_dir, None, sarif) && ctx_view(ctx)
                    == spec_failed_run_context(config, git_available, shallow_clone, e.spec_message()) && errs.len() == 1
                    && errs[0].message@ == e.spec_message() && receipt_matches(
                    r->Ok_0.receipt,
                    None,
                    errs,
                    ai,
                    config.baseline,
                    workspace_root,
                    Some(ctx),
                    tool_version,
                    seq![],
                    today,
                    now,
                )
        },
        Ok(a) => {
            &&& r is Ok
            &&& r->Ok_0.report is Some
            &&& ({
                let rep = r->Ok_0.report->0;
                &&& rep.semverguard_version@ == match tool_version {
                    Some(v) => v,
                    None => "0.1.0"@,
                }
                &&& rep.started_at@ == started
                &&& rep.finished_at@ == finished
                &&& rep.workspace_root == a.workspace_root
                &&& rep.packages == a.packages
                &&& rep.summary == a.summary
                &&& r->Ok_0.exit_code == if receipt_requested {
                    spec_exit_code_from_receipt(
                        r->Ok_0.receipt.verdict.status,
                        config.output.warn_as_fail,
                        spec_has_tool_error(findings_view(r->Ok_0.receipt.findings@)),
                    )
                } else {
                    spec_exit_code_from_report(rep.packages@, resolved_mode, config.output.warn_as_fail)
                }
                &&& exists|ai: ArtifactIndex, ctx: CapabilityContext, today: (i32, u8, u8), now: Seq<char>|
                    #![trigger receipt_matches(r->Ok_0.receipt, Some(rep), seq![], ai, config.baseline, workspace_root, Some(ctx), tool_version, config.waivers@, today, now)]
                    artifact_index_matches(ai, workspace_root, artifacts_dir, Some(rep), sarif) && ctx_view(ctx)
                        == spec_capability_context(config, rep, git_available, shallow_clone, git_version)
                        && receipt_matches(
                        r->Ok_0.receipt,
                        Some(rep),
                        seq![],
                        ai,
                        config.baseline,
                        workspace_root,
                        Some(ctx),
                        tool_version,
                        config.waivers@,
                        today,
                        now,
                    )
            })
        },
    }
}

/// The pipeline's outcome for the runner's result: an error is returned as is
/// unless a receipt is wanted, in which case the receipt reports it as a tool
/// error; a report becomes a receipt with capabilities, and the exit code comes
/// from the receipt (receipt output) or from the report (other outputs).
pub fn finish_pipeline(
    workspace_root: &str,
    config: &SemverguardConfig,
    sarif: bool,
    tool_version: Option<&str>,
    run: Result<RunArtifacts, SemverguardError>,
    git_available: bool,
    shallow_clone: bool,
    git_version: Option<String>,
    resolved_mode: RunMode,
    started: &str,
    finished: &str,
) -> (r: Result<PipelineResult, SemverguardError>)
    ensures
        pipeline_matches(
            r,
            workspace_root@,
            *config,
            sarif,
            opt_str_view(tool_version),
            run,
            git_available,
            shallow_clone,
            os(git_version),
            resolved_mode,
            started@,
            finished@,
        ),
{
    let receipt_requested = config.output.format == OutputFormat::Receipt;
    let artifacts_root = join_path(workspace_root, config.output.artifacts_dir.as_str());
    match run {
        Err(e) => {
            if !receipt_requested {
                return Err(e);
            }
            let msg = e.message();
            let mut errors: Vec<ToolErrorFinding> = Vec::new();
            errors.push(ToolErrorFinding::new(msg.as_str()));
            let index = build_artifact_index(workspace_root, artifacts_root.as_str(), None, sarif);
            let mut detail = owned("error: ");
            push_str(&mut detail, msg.as_str());
            let ctx = CapabilityContext::new().with_git_available(git_available).with_baseline_available(
                false,
            ).with_baseline_detail(detail.as_str()).with_shallow_clone(shallow_clone).with_git_skipped(
                config.baseline.kind != BaselineKind::Git,
            );
            let no_waivers: Vec<WaiverEntry> = Vec::new();
            let receipt = build_receipt_with_capabilities_versioned(
                None,
                &errors,
                &index,
                &config.baseline,
                workspace_root,
                Some(&ctx),
                tool_version,
                &no_waivers,
            );
            let code = exit_code_from_receipt(&receipt.verdict, config.output.warn_as_fail, has_tool_error(&receipt.findings));
            proof {
                assert(no_waivers@ =~= seq![]);
            }
            Ok(PipelineResult { receipt, report: None, exit_code: code })
        },
        Ok(a) => {
            let version = match tool_version {
                Some(v) => owned(v),
                None => owned(crate::assemble::TOOL_VERSION),
            };
            proof {
                reveal_strlit("0.1.0");
            }
            let RunArtifacts { workspace_root: root, packages, summary } = a;
            let report = RunReport {
                semverguard_version: version,
                started_at: owned(started),
                finished_at: owned(finished),
                workspace_root: root,
                packages,
                summary,
            };
            let index = build_artifact_index(workspace_root, artifacts_root.as_str(), Some(&report), sarif);
            let ctx = build_capability_context(config, &report, git_available, shallow_clone, git_version);
            let no_errors: Vec<ToolErrorFinding> = Vec::new();
            let receipt = build_receipt_with_capabilities_versioned(
                Some(&report),
                &no_errors,
                &index,
                &config.baseline,
                workspace_root,
                Some(&ctx),
                tool_version,
                &config.waivers,
            );
            proof {
                assert(no_errors@ =~= seq![]);
            }
            let code = if receipt_requested {
                exit_code_from_receipt(&receipt.verdict, config.output.warn_as_fail, has_tool_error(&receipt.findings))
            } else {
                exit_code_from_report(&report, resolved_mode, config.output.warn_as_fail)
            };
            Ok(PipelineResult { receipt, report: Some(report), exit_code: code })
        },
    }
}

/// Whether git counts as available: an adapter is given for a git baseline.
pub open spec fn git_counts<G>(git: Option<&G>, kind: BaselineKind) -> bool {
    git is Some && kind == BaselineKind::Git
}

/// What the file system says of the workspace root.
#[derive(Debug, Clone, Copy, PartialEq, Eq, Structural)]
pub enum RootState {
    /// It is a directory.
    Directory,
    /// It exists but is not a directory.
    NotDirectory,
    /// It does not exist (or cannot be read).
    Missing,
}

/// The error for a workspace root that is not a usable directory.
pub open spec fn root_error(root: Seq<char>, state: RootState) -> Option<Seq<char>> {
    match state {
        RootState::Directory => None,
        RootState::NotDirectory => Some("workspace root is not a directory: "@ + root),
        RootState::Missing => Some("workspace root does not exist: "@ + root),
    }
}

/// Run the pipeline with the given adapters: fail when the workspace root (in state
/// `root_state`) is not a directory; otherwise the checks (reporting progress to the
/// options' callback when there is one), then `finish_pipeline` on their result,
/// with git counted as available when an adapter is given for a git baseline. The
/// lane `resolved_mode` decides the exit code of non-receipt output.
pub fn run_with_adapters<W: WorkspaceProvider, G: GitProvider, E: SemverEngine, P: ProgressCallback + Clone>(
    options: &PipelineOptions<P>,
    root_state: RootState,
    workspace: &W,
    git: Option<&G>,
    engine: &E,
    resolved_mode: RunMode,
) -> (r: Result<PipelineResult, SemverguardError>)
    ensures
        root_error(options.workspace_root@, root_state) matches Some(m) ==> r matches Err(
            SemverguardError::MissingPath(e),
        ) && e@ == m,
        root_state == RootState::Directory ==> exists|
            run: Result<RunArtifacts, SemverguardError>,
            started: Seq<char>,
            finished: Seq<char>,
        |
            #[trigger] pipeline_matches(
                r,
                options.workspace_root@,
                options.config,
                options.sarif,
                os(options.tool_version),
                run,
                git_counts(git, options.config.baseline.kind),
                false,
                None,
                resolved_mode,
                started,
                finished,
            ) && run_outcome(workspace, git, engine, options.workspace_root@, options.config, run),
{
    match root_state {
        RootState::Directory => {},
        RootState::NotDirectory => {
            let mut m = owned("workspace root is not a directory: ");
            push_str(&mut m, options.workspace_root.as_str());
            return Err(SemverguardError::MissingPath(m));
        },
        RootState::Missing => {
            let mut m = owned("workspace root does not exist: ");
            push_str(&mut m, options.workspace_root.as_str());
            return Err(SemverguardError::MissingPath(m));
        },
    }
    let git_available = git.is_some() && options.config.baseline.kind == BaselineKind::Git;
    let started = crate::assemble::now_rfc3339();
    let run = match &options.progress {
        Some(p) => {
            let runner = SemverguardRunner::with_progress(workspace, git, engine, p.clone());
            runner.run(options.workspace_root.as_str(), &options.config)
        },
        None => {
            let runner = SemverguardRunner::new(workspace, git, engine);
            runner.run(options.workspace_root.as_str(), &options.config)
        },
    };
    let finished = crate::assemble::now_rfc3339();
    let tv = match &options.tool_version {
        Some(v) => Some(v.as_str()),
        None => None,
    };
    let ghost run_v = run;
    let r = finish_pipeline(
        options.workspace_root.as_str(),
        &options.config,
        options.sarif,
        tv,
        run,
        git_available,
        false,
        None,
        resolved_mode,
        started.as_str(),
        finished.as_str(),
    );
    assert(opt_str_view(tv) == os(options.tool_version));
    assert(git_available == git_counts(git, options.config.baseline.kind));
    assert(pipeline_matches(
        r,
        options.workspace_root@,
        options.config,
        options.sarif,
        os(options.tool_version),
        run_v,
        git_counts(git, options.config.baseline.kind),
        false,
        None,
        resolved_mode,
        started@,
        finished@,
    ));
    r
}

} // verus!

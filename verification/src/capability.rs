//! The capability context of a run, from its configuration and outcome.
use vstd::prelude::*;
use crate::model::{BaselineKind, FailureKind, PackageReport, PackageStatus, RunReport, SemverguardConfig};
use crate::receipt::{CapabilityContext, ctx_view, os};
use crate::text::{owned, push_str};

verus! {

/// Whether some package failed on its baseline.
pub open spec fn baseline_failed(pk: Seq<PackageReport>) -> bool {
    exists|i: int|
        0 <= i < pk.len() && (#[trigger] pk[i]).status == PackageStatus::Failed && pk[i].failure_kind == Some(
            FailureKind::BaselineError,
        )
}

/// The baseline detail: `git:<rev>` or `crates-io:<version>` when the baseline was
/// resolved, else a failure note.
pub open spec fn spec_baseline_detail(config: SemverguardConfig, available: bool) -> Option<Seq<char>> {
    if available {
        match config.baseline.kind {
            BaselineKind::Git => match config.baseline.rev {
                Some(r) => Some("git:"@ + r@),
                None => None,
            },
            BaselineKind::CratesIo => match config.baseline.version {
                Some(v) => Some("crates-io:"@ + v@),
                None => None,
            },
        }
    } else {
        Some("baseline resolution failed"@)
    }
}

/// The capability context of a run: git as probed (its detail the configured
/// revision when git works), the baseline available unless a package failed on it,
/// git not needed for a crates.io baseline.
pub open spec fn spec_capability_context(
    config: SemverguardConfig,
    report: RunReport,
    git_available: bool,
    shallow_clone: bool,
    git_version: Option<Seq<char>>,
) -> (bool, Option<Seq<char>>, bool, Option<Seq<char>>, bool, Option<Seq<char>>, bool, bool) {
    let available = !baseline_failed(report.packages@);
    (
        git_available,
        if git_available {
            os(config.baseline.rev)
        } else {
            None
        },
        available,
        spec_baseline_detail(config, available),
        shallow_clone,
        git_version,
        config.baseline.kind != BaselineKind::Git,
        false,
    )
}

/// The capability context of a run (see `spec_capability_context`).
pub fn build_capability_context(
    config: &SemverguardConfig,
    report: &RunReport,
    git_available: bool,
    shallow_clone: bool,
    git_version: Option<String>,
) -> (r: CapabilityContext)
    ensures
        ctx_view(r) == spec_capability_context(*config, *report, git_available, shallow_clone, os(git_version)),
{
    let mut failed = false;
    let mut i: usize = 0;
    while i < report.packages.len()
        invariant
            i <= report.packages.len(),
            failed == baseline_failed(report.packages@.take(i as int)),
        decreases report.packages.len() - i,
    {
        let p = &report.packages[i];
        assert(report.packages@.take(i + 1)[i as int] == *p);
        assert forall|q: int| 0 <= q < i implies report.packages@.take(i + 1)[q] == report.packages@.take(i as int)[q] by {}
        if p.status == PackageStatus::Failed && p.failure_kind == Some(FailureKind::BaselineError) {
            failed = true;
        }
        i += 1;
    }
    assert(report.packages@.take(report.packages.len() as int) =~= report.packages@);
    let baseline_available = !failed;
    let baseline_detail = if baseline_available {
        match config.baseline.kind {
            BaselineKind::Git => match &config.baseline.rev {
                Some(r) => {
                    let mut s = owned("git:");
                    push_str(&mut s, r.as_str());
                    Some(s)
                },
                None => None,
            },
            BaselineKind::CratesIo => match &config.baseline.version {
                Some(v) => {
                    let mut s = owned("crates-io:");
                    push_str(&mut s, v.as_str());
                    Some(s)
                },
                None => None,
            },
        }
    } else {
        Some(owned("baseline resolution failed"))
    };
    let git_detail = if git_available {
        match &config.baseline.rev {
            Some(r) => Some(r.clone()),
            None => None,
        }
    } else {
        None
    };
    let git_skipped = config.baseline.kind != BaselineKind::Git;
    let mut ctx = CapabilityContext::new().with_git_available(git_available).with_baseline_available(
        baseline_available,
    ).with_shallow_clone(shallow_clone).with_git_skipped(git_skipped);
    if let Some(ver) = &git_version {
        ctx = ctx.with_git_version(ver.as_str());
    }
    if let Some(d) = &git_detail {
        ctx = ctx.with_git_detail(d.as_str());
    }
    if let Some(d) = &baseline_detail {
        ctx = ctx.with_baseline_detail(d.as_str());
    }
    ctx
}

} // verus!

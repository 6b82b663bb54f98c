//! Bootstrap planning: which steps materialize the isolated runtime
//! environment. The host executes the planned steps (they are filesystem
//! and installer work); this module only decides, and its plan is empty
//! whenever the environment is already populated, so running bootstrap
//! again performs no redundant work.

use vstd::prelude::*;

verus! {

/// What the host observed about the runtime environment and the bundled
/// source material, probed immediately before planning.
#[derive(Clone, Copy, PartialEq, Eq, Structural, Debug)]
pub struct BootstrapProbe {
    /// The isolated runtime interpreter is already on disk.
    pub runtime_interpreter_present: bool,
    /// A bundled source package directory with its manifest exists.
    pub source_package_present: bool,
    /// The isolated environment subtree was already created earlier.
    pub env_present: bool,
    /// The environment's package installer is available (probed where the
    /// environment-creation step would leave it).
    pub installer_present: bool,
    /// The source package declares dependencies in a manifest file.
    pub deps_manifest_present: bool,
}

/// One bootstrap step, to be executed by the host in plan order.
#[derive(Clone, Copy, PartialEq, Eq, Structural, Debug)]
pub enum BootstrapStep {
    /// Recursively copy the source package tree to the runtime location.
    CopyPackageTree,
    /// Create the isolated environment rooted at the runtime location.
    CreateEnvironment,
    /// Upgrade the environment's package installer.
    UpgradeInstaller,
    /// Install the dependencies declared in the manifest file.
    InstallDependencies,
    /// Install the local package itself so it is importable by name.
    InstallLocalPackage,
}

/// The bootstrap plan for a probe: empty when the runtime interpreter is
/// already present or there is no source to bootstrap from; otherwise the
/// copy, the environment creation unless one exists, and the installer
/// steps where the installer is available.
pub open spec fn spec_plan(p: BootstrapProbe) -> Seq<BootstrapStep> {
    if p.runtime_interpreter_present || !p.source_package_present {
        Seq::empty()
    } else {
        seq![BootstrapStep::CopyPackageTree] + (if !p.env_present {
            seq![BootstrapStep::CreateEnvironment]
        } else {
            Seq::empty()
        }) + (if p.installer_present {
            seq![BootstrapStep::UpgradeInstaller] + (if p.deps_manifest_present {
                seq![BootstrapStep::InstallDependencies]
            } else {
                Seq::empty()
            }) + seq![BootstrapStep::InstallLocalPackage]
        } else {
            Seq::empty()
        })
    }
}

/// Computes the bootstrap plan, matching [`spec_plan`] exactly.
pub fn plan(p: &BootstrapProbe) -> (r: Vec<BootstrapStep>)
    ensures
        r@ == spec_plan(*p),
{
    let mut steps: Vec<BootstrapStep> = Vec::new();
    if p.runtime_interpreter_present || !p.source_package_present {
        proof {
            assert(steps@ =~= spec_plan(*p));
        }
        return steps;
    }
    steps.push(BootstrapStep::CopyPackageTree);
    if !p.env_present {
        steps.push(BootstrapStep::CreateEnvironment);
    }
    if p.installer_present {
        steps.push(BootstrapStep::UpgradeInstaller);
        if p.deps_manifest_present {
            steps.push(BootstrapStep::InstallDependencies);
        }
        steps.push(BootstrapStep::InstallLocalPackage);
    }
    proof {
        assert(steps@ =~= spec_plan(*p));
    }
    steps
}

/// Whether the start may proceed against an isolated environment or only in
/// degraded mode against the generic system interpreter. Surfaced to the
/// caller instead of being swallowed, so it can decide to abort rather than
/// run against an interpreter that may lack the declared dependencies.
#[derive(Clone, Copy, PartialEq, Eq, Structural, Debug)]
pub enum BootstrapOutcome {
    Isolated,
    DegradedFallback,
}

/// Classifies the state after the plan ran: isolated exactly when the
/// runtime interpreter is present afterwards.
pub fn assess(runtime_interpreter_present_after: bool) -> (r: BootstrapOutcome)
    ensures
        r == BootstrapOutcome::Isolated <==> runtime_interpreter_present_after,
        r == BootstrapOutcome::DegradedFallback <==> !runtime_interpreter_present_after,
{
    if runtime_interpreter_present_after {
        BootstrapOutcome::Isolated
    } else {
        BootstrapOutcome::DegradedFallback
    }
}

/// Bootstrap is idempotent: once the runtime environment is populated (its
/// interpreter is on disk), a further bootstrap plans zero copy or install
/// operations.
pub proof fn lemma_bootstrap_idempotent(p: BootstrapProbe)
    requires
        p.runtime_interpreter_present,
    ensures
        spec_plan(p) == Seq::<BootstrapStep>::empty(),
        spec_plan(p).len() == 0,
{
}

} // verus!

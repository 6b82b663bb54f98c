//! Launch planning: from a resolved runtime environment and a validated
//! start configuration to the exact invocation the host must spawn —
//! program, argument list, working directory, environment-variable
//! directives, and process-group placement. Deterministic: the same inputs
//! always yield the same plan.

use vstd::prelude::*;
use crate::config::StartConfig;
use crate::resolver::Mode;
use crate::resolver::RuntimeEnvironment;
use crate::text::spec_millihertz;
use crate::text::millihertz_string;

verus! {

/// The host platform, as far as launching and terminating care: whether
/// process groups and graceful signals exist, and whether the native
/// binding module must be probed before first launch.
#[derive(Clone, Copy, PartialEq, Eq, Structural, Debug)]
pub enum HostOs {
    MacOs,
    OtherPosix,
    NonPosix,
}

/// One environment-variable directive the host must apply to the child.
pub enum EnvDirective {
    Assign { name: String, value: String },
    Clear { name: String },
}

/// The mathematical shape of a directive: a variable name and either the
/// value to assign or nothing, meaning the variable is removed.
pub struct EnvDirectiveView {
    pub name: Seq<char>,
    pub assigned: Option<Seq<char>>,
}

impl View for EnvDirective {
    type V = EnvDirectiveView;

    open spec fn view(&self) -> EnvDirectiveView {
        match self {
            EnvDirective::Assign { name, value } => EnvDirectiveView {
                name: name@,
                assigned: Some(value@),
            },
            EnvDirective::Clear { name } => EnvDirectiveView { name: name@, assigned: None },
        }
    }
}

/// An assignment directive.
pub open spec fn dv_assign(name: Seq<char>, value: Seq<char>) -> EnvDirectiveView {
    EnvDirectiveView { name, assigned: Some(value) }
}

/// A removal directive.
pub open spec fn dv_clear(name: Seq<char>) -> EnvDirectiveView {
    EnvDirectiveView { name, assigned: None }
}

/// The view of an optional string.
pub open spec fn opt_str_view(o: Option<String>) -> Option<Seq<char>> {
    match o {
        Some(s) => Some(s@),
        None => None,
    }
}

/// The worker's argument list for a validated configuration: always the
/// module-invocation flag and the connection, then each optional flag
/// exactly when its field is present — an omitted field never appears, not
/// even with a default.
pub open spec fn spec_args(cfg: StartConfig) -> Seq<Seq<char>> {
    seq!["-m"@, "televoodoo"@, "--connection"@, cfg.connection.spec_arg()] + (match cfg.name {
        Some(n) => seq!["--name"@, n@],
        None => Seq::empty(),
    }) + (match cfg.code {
        Some(c) => seq!["--code"@, c@],
        None => Seq::empty(),
    }) + (match cfg.upsample_millihertz {
        Some(v) => seq!["--upsample-hz"@, spec_millihertz(v as nat)],
        None => Seq::empty(),
    }) + (match cfg.rate_limit_millihertz {
        Some(v) => seq!["--rate-limit-hz"@, spec_millihertz(v as nat)],
        None => Seq::empty(),
    })
}

/// Builds the argument list, matching [`spec_args`] exactly.
pub fn build_args(cfg: &StartConfig) -> (r: Vec<String>)
    ensures
        r@.map_values(|s: String| s@) == spec_args(*cfg),
{
    let mut args: Vec<String> = Vec::new();
    args.push(String::from_str("-m"));
    args.push(String::from_str("televoodoo"));
    args.push(String::from_str("--connection"));
    args.push(String::from_str(cfg.connection.as_arg()));
    match &cfg.name {
        Some(n) => {
            args.push(String::from_str("--name"));
            args.push(n.clone());
        },
        None => {},
    }
    match &cfg.code {
        Some(c) => {
            args.push(String::from_str("--code"));
            args.push(c.clone());
        },
        None => {},
    }
    match cfg.upsample_millihertz {
        Some(v) => {
            args.push(String::from_str("--upsample-hz"));
            args.push(millihertz_string(v));
        },
        None => {},
    }
    match cfg.rate_limit_millihertz {
        Some(v) => {
            args.push(String::from_str("--rate-limit-hz"));
            args.push(millihertz_string(v));
        },
        None => {},
    }
    proof {
        assert(args@.map_values(|s: String| s@) =~= spec_args(*cfg));
    }
    args
}

/// The environment-variable policy for a launch: remove the interpreter
/// home override, the explicit interpreter override and the user-base
/// override, all of which corrupt isolated-environment resolution; turn on
/// unbuffered output so the relay sees lines promptly; and set the
/// module-search-path variable only in development mode — a packaged launch
/// removes it instead, so an externally injected value cannot collide with
/// installed-package resolution.
pub open spec fn spec_env_policy(mode: Mode, search_override: Option<Seq<char>>) -> Seq<
    EnvDirectiveView,
> {
    seq![
        dv_clear("PYTHONHOME"@),
        dv_clear("PYTHONEXECUTABLE"@),
        dv_clear("PYTHONUSERBASE"@),
        dv_assign("PYTHONUNBUFFERED"@, "1"@),
    ] + (if mode == Mode::Development && search_override is Some {
        seq![dv_assign("PYTHONPATH"@, search_override->Some_0)]
    } else {
        seq![dv_clear("PYTHONPATH"@)]
    })
}

/// Builds the environment directives for a resolved environment, matching
/// [`spec_env_policy`] exactly.
pub fn env_policy(renv: &RuntimeEnvironment) -> (r: Vec<EnvDirective>)
    ensures
        r@.map_values(|d: EnvDirective| d@) == spec_env_policy(
            renv.mode,
            opt_str_view(renv.search_path_override),
        ),
{
    let mut out: Vec<EnvDirective> = Vec::new();
    out.push(EnvDirective::Clear { name: String::from_str("PYTHONHOME") });
    out.push(EnvDirective::Clear { name: String::from_str("PYTHONEXECUTABLE") });
    out.push(EnvDirective::Clear { name: String::from_str("PYTHONUSERBASE") });
    out.push(
        EnvDirective::Assign {
            name: String::from_str("PYTHONUNBUFFERED"),
            value: String::from_str("1"),
        },
    );
    let is_dev = match renv.mode {
        Mode::Development => true,
        Mode::Packaged => false,
    };
    match &renv.search_path_override {
        Some(p) if is_dev => {
            out.push(
                EnvDirective::Assign { name: String::from_str("PYTHONPATH"), value: p.clone() },
            );
        },
        _ => {
            out.push(EnvDirective::Clear { name: String::from_str("PYTHONPATH") });
        },
    }
    proof {
        assert(out@.map_values(|d: EnvDirective| d@) =~~= spec_env_policy(
            renv.mode,
            opt_str_view(renv.search_path_override),
        ));
    }
    out
}

/// Whether the launched worker must become the leader of a new process
/// group, detaching from the host's group so that later group-wide
/// signalling cannot reach the host or its siblings. True exactly on POSIX
/// hosts.
pub fn wants_new_process_group(os: HostOs) -> (r: bool)
    ensures
        r == (os != HostOs::NonPosix),
{
    match os {
        HostOs::MacOs => true,
        HostOs::OtherPosix => true,
        HostOs::NonPosix => false,
    }
}

/// Whether the native binding module must be probed in the chosen
/// interpreter before first launch. Only the macOS host needs the binding.
pub fn needs_binding_probe(os: HostOs) -> (r: bool)
    ensures
        r == (os == HostOs::MacOs),
{
    match os {
        HostOs::MacOs => true,
        HostOs::OtherPosix => false,
        HostOs::NonPosix => false,
    }
}

/// Whether the one best-effort install of the native binding should be
/// attempted: exactly when the host needs the binding and the import probe
/// failed. A failed install never blocks the launch.
pub fn should_install_binding(os: HostOs, import_succeeded: bool) -> (r: bool)
    ensures
        r == (os == HostOs::MacOs && !import_succeeded),
{
    match os {
        HostOs::MacOs => !import_succeeded,
        HostOs::OtherPosix => false,
        HostOs::NonPosix => false,
    }
}

/// The complete, deterministic launch plan for one start attempt. The host
/// spawns exactly this: the program with these arguments, in this working
/// directory, after applying the directives, with both output streams
/// captured as pipes so the relay is their sole reader.
pub struct LaunchPlan {
    pub program: String,
    pub args: Vec<String>,
    pub working_dir: String,
    pub env: Vec<EnvDirective>,
    pub new_process_group: bool,
    /// Whether the program is an isolated-environment interpreter; `false`
    /// means the degraded system fallback, surfaced so the host can warn or
    /// abort instead of silently running without the declared dependencies.
    pub isolated: bool,
}

/// Assembles the launch plan from the resolved environment, the validated
/// configuration and the host platform.
pub fn build_launch_plan(renv: RuntimeEnvironment, cfg: &StartConfig, os: HostOs) -> (r:
    LaunchPlan)
    ensures
        r.program == renv.interpreter_path,
        r.working_dir == renv.working_dir,
        r.args@.map_values(|s: String| s@) == spec_args(*cfg),
        r.env@.map_values(|d: EnvDirective| d@) == spec_env_policy(
            renv.mode,
            opt_str_view(renv.search_path_override),
        ),
        r.new_process_group == (os != HostOs::NonPosix),
        r.isolated == renv.interpreter_isolated,
{
    let args = build_args(cfg);
    let env = env_policy(&renv);
    let new_process_group = wants_new_process_group(os);
    LaunchPlan {
        program: renv.interpreter_path,
        args,
        working_dir: renv.working_dir,
        env,
        new_process_group,
        isolated: renv.interpreter_isolated,
    }
}

} // verus!

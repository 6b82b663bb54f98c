//! Environment resolution: from a filesystem probe to the runtime
//! environment the launcher will use. Pure lookup — this module never
//! creates or deletes anything, and it never fails: every missing entry
//! degrades to a fallback.

use vstd::prelude::*;

verus! {

/// Whether the host runs from a development checkout or as a packaged
/// application.
#[derive(Clone, Copy, PartialEq, Eq, Structural, Debug)]
pub enum Mode {
    Development,
    Packaged,
}

/// What the host observed on disk immediately before a start attempt. An
/// `Option` field is `Some(path)` exactly when the entry exists (for package
/// directories: exists and contains the package manifest). Probed fresh on
/// every start, never cached, because the filesystem can change between
/// calls.
pub struct FsProbe {
    /// Interpreter inside the project-local isolated environment.
    pub dev_env_interpreter: Option<String>,
    /// Interpreter inside the per-user runtime isolated environment.
    pub runtime_env_interpreter: Option<String>,
    /// Bundled resource package directory holding the package manifest.
    pub bundled_package_dir: Option<String>,
    /// Per-user runtime copy of the package directory with its manifest.
    pub runtime_package_dir: Option<String>,
    /// Module source directory used as the search-path override in
    /// development mode.
    pub dev_package_src: Option<String>,
    /// The host process's own working directory, the final fallback.
    pub host_cwd: String,
}

/// The resolved execution environment for one start attempt.
pub struct RuntimeEnvironment {
    pub mode: Mode,
    /// Path of the interpreter to execute.
    pub interpreter_path: String,
    /// Whether the interpreter comes from an isolated environment; `false`
    /// means the generic system interpreter fallback, i.e. a degraded start.
    pub interpreter_isolated: bool,
    /// Working directory for the worker.
    pub working_dir: String,
    /// Module-search-path override; populated only in development mode.
    pub search_path_override: Option<String>,
}

/// The interpreter path a probe resolves to, at the level of character
/// sequences: the mode's isolated-environment interpreter when present,
/// else the generic system interpreter.
pub open spec fn spec_interpreter_path(mode: Mode, probe: FsProbe) -> Seq<char> {
    match mode {
        Mode::Development => match probe.dev_env_interpreter {
            Some(p) => p@,
            None => "python3"@,
        },
        Mode::Packaged => match probe.runtime_env_interpreter {
            Some(p) => p@,
            None => "python3"@,
        },
    }
}

/// Whether a probe resolves to an isolated interpreter rather than the
/// degraded system fallback.
pub open spec fn spec_interpreter_isolated(mode: Mode, probe: FsProbe) -> bool {
    match mode {
        Mode::Development => probe.dev_env_interpreter is Some,
        Mode::Packaged => probe.runtime_env_interpreter is Some,
    }
}

/// The working directory a probe resolves to: bundled package directory,
/// then the runtime copy, then the host's own working directory.
pub open spec fn spec_working_dir(probe: FsProbe) -> Seq<char> {
    match probe.bundled_package_dir {
        Some(d) => d@,
        None => match probe.runtime_package_dir {
            Some(d) => d@,
            None => probe.host_cwd@,
        },
    }
}

/// The module-search-path override a probe resolves to: only in
/// development mode, and only when the source directory exists.
pub open spec fn spec_search_override(mode: Mode, probe: FsProbe) -> Option<Seq<char>> {
    match mode {
        Mode::Development => match probe.dev_package_src {
            Some(p) => Some(p@),
            None => None,
        },
        Mode::Packaged => None,
    }
}

/// Name of the generic system interpreter used when no isolated environment
/// is available.
pub fn system_interpreter() -> (r: &'static str)
    ensures
        r@ == "python3"@,
{
    "python3"
}

/// Picks the bundled package directory among its two candidate locations,
/// first match wins: the primary resource location, then the nested one.
/// `None` when neither exists.
pub fn pick_bundled(primary: Option<String>, secondary: Option<String>) -> (r: Option<String>)
    ensures
        primary is Some ==> r == primary,
        primary is None ==> r == secondary,
{
    match primary {
        Some(d) => Some(d),
        None => secondary,
    }
}

/// Resolves the runtime environment from a filesystem probe.
///
/// Interpreter, first match wins: the mode's isolated-environment
/// interpreter if present, else the generic system interpreter. Working
/// directory, first match wins: bundled package directory, runtime package
/// copy, the host's own working directory. The search-path override is
/// taken only in development mode. Total: no probe outcome is an error.
pub fn resolve(mode: Mode, probe: FsProbe) -> (r: RuntimeEnvironment)
    ensures
        r.mode == mode,
        mode == Mode::Development && probe.dev_env_interpreter is Some ==> {
            &&& r.interpreter_path == probe.dev_env_interpreter->Some_0
            &&& r.interpreter_isolated
        },
        mode == Mode::Development && probe.dev_env_interpreter is None ==> {
            &&& r.interpreter_path@ == "python3"@
            &&& !r.interpreter_isolated
        },
        mode == Mode::Packaged && probe.runtime_env_interpreter is Some ==> {
            &&& r.interpreter_path == probe.runtime_env_interpreter->Some_0
            &&& r.interpreter_isolated
        },
        mode == Mode::Packaged && probe.runtime_env_interpreter is None ==> {
            &&& r.interpreter_path@ == "python3"@
            &&& !r.interpreter_isolated
        },
        probe.bundled_package_dir is Some ==> r.working_dir == probe.bundled_package_dir->Some_0,
        probe.bundled_package_dir is None && probe.runtime_package_dir is Some
            ==> r.working_dir == probe.runtime_package_dir->Some_0,
        probe.bundled_package_dir is None && probe.runtime_package_dir is None
            ==> r.working_dir == probe.host_cwd,
        mode == Mode::Development ==> r.search_path_override == probe.dev_package_src,
        mode == Mode::Packaged ==> r.search_path_override is None,
        r.interpreter_path@ == spec_interpreter_path(mode, probe),
        r.interpreter_isolated == spec_interpreter_isolated(mode, probe),
        r.working_dir@ == spec_working_dir(probe),
        (match r.search_path_override {
            Some(p) => spec_search_override(mode, probe) == Some(p@),
            None => spec_search_override(mode, probe) is None,
        }),
{
    let (interpreter_path, interpreter_isolated): (String, bool) = match mode {
        Mode::Development => {
            match probe.dev_env_interpreter {
                Some(p) => (p, true),
                None => (String::from_str(system_interpreter()), false),
            }
        },
        Mode::Packaged => {
            match probe.runtime_env_interpreter {
                Some(p) => (p, true),
                None => (String::from_str(system_interpreter()), false),
            }
        },
    };
    let working_dir = match probe.bundled_package_dir {
        Some(d) => d,
        None => {
            match probe.runtime_package_dir {
                Some(d) => d,
                None => probe.host_cwd,
            }
        },
    };
    let search_path_override = match mode {
        Mode::Development => probe.dev_package_src,
        Mode::Packaged => None,
    };
    RuntimeEnvironment { mode, interpreter_path, interpreter_isolated, working_dir, search_path_override }
}

} // verus!

//! The composed start path: from a raw caller request and a fresh
//! filesystem probe to the exact launch plan, with validation first — no
//! process is touched for a rejected request — and with the
//! retire-before-launch law that ties the supervisor to the termination
//! sequencer.

use vstd::prelude::*;
use crate::config::Connection;
use crate::config::ConfigError;
use crate::config::StartConfig;
use crate::config::StartRequest;
use crate::config::lemma_connection_names_distinct;
use crate::config::validate;
use crate::launcher::EnvDirective;
use crate::launcher::HostOs;
use crate::launcher::LaunchPlan;
use crate::launcher::build_launch_plan;
use crate::launcher::spec_args;
use crate::launcher::spec_env_policy;
use crate::resolver::FsProbe;
use crate::resolver::Mode;
use crate::resolver::resolve;
use crate::resolver::spec_interpreter_isolated;
use crate::resolver::spec_interpreter_path;
use crate::resolver::spec_search_override;
use crate::resolver::spec_working_dir;
use crate::supervisor::Supervisor;
use crate::supervisor::WorkerHandle;
use crate::supervisor::spec_begin_start;
use crate::supervisor::spec_complete_start;
use crate::terminator::SignalCapability;
use crate::terminator::TermEvent;
use crate::terminator::TermState;
use crate::terminator::spec_step;

verus! {

/// The connection a known name denotes (meaningful only for known names).
pub open spec fn spec_connection_of(s: Seq<char>) -> Connection {
    if s == "wifi"@ {
        Connection::Wifi
    } else if s == "ble"@ {
        Connection::Ble
    } else {
        Connection::Usb
    }
}

/// The validated configuration a request denotes (meaningful only for
/// requests that pass validation).
pub open spec fn spec_config_of(req: StartRequest) -> StartConfig {
    StartConfig {
        connection: spec_connection_of(req.connection@),
        name: req.name,
        code: req.code,
        upsample_millihertz: req.upsample.spec_value(),
        rate_limit_millihertz: req.rate_limit.spec_value(),
    }
}

/// The compute core of one start attempt: validate the request, resolve
/// the runtime environment from the probe, and assemble the launch plan.
/// Succeeds exactly when the request is valid; a rejected request yields
/// its validation error and nothing else happens. The plan is a pure
/// function of the request, the mode, the probe and the platform.
pub fn prepare_launch(req: StartRequest, mode: Mode, probe: FsProbe, os: HostOs) -> (r: Result<
    LaunchPlan,
    ConfigError,
>)
    ensures
        r is Ok <==> {
            &&& Connection::spec_known(req.connection@)
            &&& req.upsample.spec_ok()
            &&& req.rate_limit.spec_ok()
        },
        r matches Ok(plan) ==> {
            &&& plan.program@ == spec_interpreter_path(mode, probe)
            &&& plan.working_dir@ == spec_working_dir(probe)
            &&& plan.args@.map_values(|s: String| s@) == spec_args(spec_config_of(req))
            &&& plan.env@.map_values(|d: EnvDirective| d@) == spec_env_policy(
                mode,
                spec_search_override(mode, probe),
            )
            &&& plan.new_process_group == (os != HostOs::NonPosix)
            &&& plan.isolated == spec_interpreter_isolated(mode, probe)
        },
        r == Err::<LaunchPlan, ConfigError>(ConfigError::UnknownConnection) <==> !Connection::spec_known(
            req.connection@,
        ),
        r == Err::<LaunchPlan, ConfigError>(ConfigError::NonPositiveUpsampleRate) <==> {
            &&& Connection::spec_known(req.connection@)
            &&& !req.upsample.spec_ok()
        },
        r == Err::<LaunchPlan, ConfigError>(ConfigError::NonPositiveRateLimit) <==> {
            &&& Connection::spec_known(req.connection@)
            &&& req.upsample.spec_ok()
            &&& !req.rate_limit.spec_ok()
        },
{
    let ghost greq = req;
    let cfg = match validate(req) {
        Ok(c) => c,
        Err(e) => {
            return Err(e);
        },
    };
    proof {
        lemma_connection_names_distinct();
        assert(cfg == spec_config_of(greq));
    }
    let renv = resolve(mode, probe);
    Ok(build_launch_plan(renv, &cfg, os))
}

/// Old before new: a start first empties the slot and hands the previous
/// handle — exactly it, if one was current — to the termination sequencer,
/// which reaches Terminated within the grace window plus one forceful-kill
/// round-trip; the slot stays empty for that whole retirement, and only the
/// spawn outcome recorded afterwards installs the new handle. So two
/// workers are never current at once, even transiently.
pub proof fn lemma_old_retired_before_new(
    s0: Supervisor,
    cap: SignalCapability,
    exited_in_grace: bool,
    outcome: Result<WorkerHandle, String>,
)
    requires
        s0.wf(),
        !s0.mid_start,
    ensures
        ({
            let (s1, retire) = spec_begin_start(s0);
            let t1 = spec_step(TermState::Running, cap, TermEvent::TerminationRequested).0;
            let t2 = if t1 == TermState::GracePeriod {
                spec_step(t1, cap, TermEvent::GraceElapsed { exited: exited_in_grace }).0
            } else {
                t1
            };
            let t3 = if t2 == TermState::Escalated {
                spec_step(t2, cap, TermEvent::KillWaitReturned).0
            } else {
                t2
            };
            let (s2, r) = spec_complete_start(s1, outcome);
            &&& retire == s0.current
            &&& s1.current is None
            &&& t3 == TermState::Terminated
            &&& (outcome matches Ok(h) ==> s2.current == Some(h) && r is Ok)
            &&& (outcome is Err ==> s2.current is None && r is Err)
        }),
{
}

} // verus!

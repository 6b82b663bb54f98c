//! The termination sequencer: an explicit state machine that drives a held
//! worker handle from Running through an escalating shutdown to Terminated.
//! The host performs the emitted actions (signals, sleeps, waits) and feeds
//! the observed events back in; this module decides every transition. The
//! same machine runs for an explicit stop request and for every host
//! shutdown hook.

use vstd::prelude::*;
use crate::launcher::HostOs;

verus! {

/// How long the sequencer waits after the graceful signal before it
/// escalates, in milliseconds. A named, tunable constant.
pub const GRACE_PERIOD_MILLIS: u64 = 500;

/// What the platform supports for terminating a process tree.
#[derive(Clone, Copy, PartialEq, Eq, Structural, Debug)]
pub enum SignalCapability {
    /// Graceful signals and process-group-wide kills exist (POSIX).
    GroupSignal,
    /// Only a forceful kill of the one process exists.
    KillOnly,
}

/// Selects the termination capability once at startup for the host
/// platform.
pub fn capability_for(os: HostOs) -> (r: SignalCapability)
    ensures
        r == SignalCapability::GroupSignal <==> os != HostOs::NonPosix,
{
    match os {
        HostOs::MacOs => SignalCapability::GroupSignal,
        HostOs::OtherPosix => SignalCapability::GroupSignal,
        HostOs::NonPosix => SignalCapability::KillOnly,
    }
}

/// The sequencer's state over one held handle. Terminated is absorbing: a
/// handle that reaches it is discarded and never reused.
#[derive(Clone, Copy, PartialEq, Eq, Structural, Debug)]
pub enum TermState {
    Running,
    GracePeriod,
    Escalated,
    Terminated,
}

/// An observation the host feeds into the machine.
#[derive(Clone, Copy, PartialEq, Eq, Structural, Debug)]
pub enum TermEvent {
    /// Termination was requested (stop call or shutdown hook).
    TerminationRequested,
    /// The grace period elapsed; `exited` says whether a non-blocking exit
    /// poll found the worker already gone.
    GraceElapsed { exited: bool },
    /// The blocking wait after the forceful kill returned.
    KillWaitReturned,
}

/// An order the host must carry out, in plan order. Delivery failures are
/// ignored by the host: termination is best-effort cleanup and never fails
/// the shutdown path.
#[derive(Clone, Copy, PartialEq, Eq, Structural, Debug)]
pub enum TermAction {
    /// Send the graceful termination signal to the worker process itself.
    SendGraceful,
    /// Forcefully kill the worker's entire process group.
    SendGroupKill,
    /// Forcefully kill the worker process by its own identifier, covering a
    /// worker that left its group or a host without group signalling.
    SendIndividualKill,
    /// Block until the operating system confirms the exit.
    AwaitExit,
}

/// The transition relation. Events that do not belong to the present state
/// are ignored; Terminated absorbs everything.
pub open spec fn spec_step(s: TermState, cap: SignalCapability, ev: TermEvent) -> (
    TermState,
    Seq<TermAction>,
) {
    match (s, ev) {
        (TermState::Running, TermEvent::TerminationRequested) => match cap {
            SignalCapability::GroupSignal => (
                TermState::GracePeriod,
                seq![TermAction::SendGraceful],
            ),
            SignalCapability::KillOnly => (
                TermState::Escalated,
                seq![TermAction::SendIndividualKill, TermAction::AwaitExit],
            ),
        },
        (TermState::GracePeriod, TermEvent::GraceElapsed { exited }) => if exited {
            (TermState::Terminated, Seq::empty())
        } else {
            (
                TermState::Escalated,
                seq![
                    TermAction::SendGroupKill,
                    TermAction::SendIndividualKill,
                    TermAction::AwaitExit,
                ],
            )
        },
        (TermState::Escalated, TermEvent::KillWaitReturned) => (
            TermState::Terminated,
            Seq::empty(),
        ),
        _ => (s, Seq::empty()),
    }
}

/// Executes one transition, matching [`spec_step`] exactly.
pub fn step(s: TermState, cap: SignalCapability, ev: TermEvent) -> (r: (TermState, Vec<
    TermAction,
>))
    ensures
        r.0 == spec_step(s, cap, ev).0,
        r.1@ == spec_step(s, cap, ev).1,
{
    let mut actions: Vec<TermAction> = Vec::new();
    let next = match (s, ev) {
        (TermState::Running, TermEvent::TerminationRequested) => match cap {
            SignalCapability::GroupSignal => {
                actions.push(TermAction::SendGraceful);
                TermState::GracePeriod
            },
            SignalCapability::KillOnly => {
                actions.push(TermAction::SendIndividualKill);
                actions.push(TermAction::AwaitExit);
                TermState::Escalated
            },
        },
        (TermState::GracePeriod, TermEvent::GraceElapsed { exited }) => {
            if exited {
                TermState::Terminated
            } else {
                actions.push(TermAction::SendGroupKill);
                actions.push(TermAction::SendIndividualKill);
                actions.push(TermAction::AwaitExit);
                TermState::Escalated
            }
        },
        (TermState::Escalated, TermEvent::KillWaitReturned) => TermState::Terminated,
        _ => s,
    };
    proof {
        assert(actions@ =~= spec_step(s, cap, ev).1);
    }
    (next, actions)
}

/// The event the sequencer itself waits for in each live state; feeding it
/// is what "driving the machine" means.
pub open spec fn drives(s: TermState, ev: TermEvent) -> bool {
    match (s, ev) {
        (TermState::Running, TermEvent::TerminationRequested) => true,
        (TermState::GracePeriod, TermEvent::GraceElapsed { .. }) => true,
        (TermState::Escalated, TermEvent::KillWaitReturned) => true,
        _ => false,
    }
}

/// Distance from Terminated; every driven transition strictly decreases it.
pub open spec fn rank(s: TermState) -> nat {
    match s {
        TermState::Running => 3,
        TermState::GracePeriod => 2,
        TermState::Escalated => 1,
        TermState::Terminated => 0,
    }
}

/// A worker that exits within the grace window never receives a forceful
/// kill: the exited grace poll moves straight to Terminated with no actions
/// at all.
pub proof fn lemma_grace_exit_spares_the_kill(cap: SignalCapability)
    ensures
        spec_step(TermState::GracePeriod, cap, TermEvent::GraceElapsed { exited: true }).0
            == TermState::Terminated,
        spec_step(TermState::GracePeriod, cap, TermEvent::GraceElapsed { exited: true }).1
            == Seq::<TermAction>::empty(),
{
}

/// A worker that ignores the graceful signal receives both the group-wide
/// and the individual forceful kill, followed by the blocking wait, and the
/// machine then reaches Terminated as soon as that wait returns.
pub proof fn lemma_stubborn_worker_gets_both_kills(cap: SignalCapability)
    ensures
        ({
            let (s1, acts) = spec_step(
                TermState::GracePeriod,
                cap,
                TermEvent::GraceElapsed { exited: false },
            );
            &&& s1 == TermState::Escalated
            &&& acts == seq![
                TermAction::SendGroupKill,
                TermAction::SendIndividualKill,
                TermAction::AwaitExit,
            ]
            &&& spec_step(s1, cap, TermEvent::KillWaitReturned).0 == TermState::Terminated
        }),
{
}

/// Every driven transition out of a live state strictly decreases the rank,
/// so the machine can never loop: it reaches Terminated after at most three
/// driven events.
pub proof fn lemma_driven_progress(s: TermState, cap: SignalCapability, ev: TermEvent)
    requires
        s != TermState::Terminated,
        drives(s, ev),
    ensures
        rank(spec_step(s, cap, ev).0) < rank(s),
{
}

/// Terminated is absorbing: no event moves the machine out of it or makes
/// it emit another action.
pub proof fn lemma_terminated_absorbing(cap: SignalCapability, ev: TermEvent)
    ensures
        spec_step(TermState::Terminated, cap, ev).0 == TermState::Terminated,
        spec_step(TermState::Terminated, cap, ev).1 == Seq::<TermAction>::empty(),
{
}

/// The full shutdown never hangs: from Running, the machine is Terminated
/// after the termination request, at most one grace poll, and at most one
/// kill round-trip — on every capability and whichever way the grace poll
/// comes out.
pub proof fn lemma_shutdown_bounded(cap: SignalCapability, exited_in_grace: bool)
    ensures
        ({
            let s1 = spec_step(TermState::Running, cap, TermEvent::TerminationRequested).0;
            let s2 = if s1 == TermState::GracePeriod {
                spec_step(s1, cap, TermEvent::GraceElapsed { exited: exited_in_grace }).0
            } else {
                s1
            };
            let s3 = if s2 == TermState::Escalated {
                spec_step(s2, cap, TermEvent::KillWaitReturned).0
            } else {
                s2
            };
            s3 == TermState::Terminated
        }),
{
}

} // verus!

use sidecar::config::{ConfigError, RawRate, StartRequest};
use sidecar::launcher::HostOs;
use sidecar::lifecycle::prepare_launch;
use sidecar::relay::{OutputLine, ReadEvent, StreamKind, StreamRelay};
use sidecar::resolver::{FsProbe, Mode};
use sidecar::supervisor::{Supervisor, WorkerHandle};
use sidecar::terminator::{
    capability_for, step, SignalCapability, TermAction, TermEvent, TermState,
    GRACE_PERIOD_MILLIS,
};

fn empty_probe() -> FsProbe {
    FsProbe {
        dev_env_interpreter: None,
        runtime_env_interpreter: None,
        bundled_package_dir: None,
        runtime_package_dir: None,
        dev_package_src: None,
        host_cwd: "/cwd".to_string(),
    }
}

fn handle(pid: u64) -> WorkerHandle {
    WorkerHandle {
        pid,
        group: Some(pid),
    }
}

#[test]
fn successful_start_installs_exactly_the_new_handle() {
    let mut sup = Supervisor::new();
    assert_eq!(sup.begin_start(), None);
    let r = sup.complete_start(Ok(handle(41)));
    assert!(r.is_ok());
    assert_eq!(sup.current, Some(handle(41)));
    assert!(!sup.mid_start);
}

#[test]
fn failed_start_returns_the_error_and_installs_nothing() {
    let mut sup = Supervisor::new();
    assert_eq!(sup.begin_start(), None);
    let r = sup.complete_start(Err("spawn failed: no such file".to_string()));
    assert_eq!(r, Err("spawn failed: no such file".to_string()));
    assert_eq!(sup.current, None);
    assert!(!sup.mid_start);
}

#[test]
fn stop_with_no_worker_is_a_quiet_success() {
    let mut sup = Supervisor::new();
    assert_eq!(sup.stop(), None);
    assert_eq!(sup.current, None);
    assert_eq!(sup.stop(), None);
}

#[test]
fn stop_hands_back_the_running_worker() {
    let mut sup = Supervisor::new();
    sup.begin_start();
    sup.complete_start(Ok(handle(7))).unwrap();
    assert_eq!(sup.stop(), Some(handle(7)));
    assert_eq!(sup.current, None);
}

#[test]
fn racing_starts_leave_exactly_one_worker() {
    let mut sup = Supervisor::new();

    assert_eq!(sup.begin_start(), None);
    sup.complete_start(Ok(handle(100))).unwrap();

    // The second start, serialized by the host's lock, must retire the
    // first worker before its own spawn outcome is recorded.
    let retired = sup.begin_start();
    assert_eq!(retired, Some(handle(100)));
    assert_eq!(sup.current, None);
    sup.complete_start(Ok(handle(200))).unwrap();

    assert_eq!(sup.current, Some(handle(200)));
}

#[test]
fn capability_follows_the_platform() {
    assert_eq!(capability_for(HostOs::MacOs), SignalCapability::GroupSignal);
    assert_eq!(capability_for(HostOs::OtherPosix), SignalCapability::GroupSignal);
    assert_eq!(capability_for(HostOs::NonPosix), SignalCapability::KillOnly);
}

#[test]
fn grace_period_constant_is_positive() {
    assert!(GRACE_PERIOD_MILLIS > 0);
}

#[test]
fn prompt_exit_skips_every_kill() {
    let cap = SignalCapability::GroupSignal;
    let (s1, a1) = step(TermState::Running, cap, TermEvent::TerminationRequested);
    assert_eq!(s1, TermState::GracePeriod);
    assert_eq!(a1, vec![TermAction::SendGraceful]);
    let (s2, a2) = step(s1, cap, TermEvent::GraceElapsed { exited: true });
    assert_eq!(s2, TermState::Terminated);
    assert_eq!(a2, vec![]);
}

#[test]
fn stubborn_worker_gets_group_and_individual_kill() {
    let cap = SignalCapability::GroupSignal;
    let (s1, _) = step(TermState::Running, cap, TermEvent::TerminationRequested);
    let (s2, a2) = step(s1, cap, TermEvent::GraceElapsed { exited: false });
    assert_eq!(s2, TermState::Escalated);
    assert_eq!(
        a2,
        vec![
            TermAction::SendGroupKill,
            TermAction::SendIndividualKill,
            TermAction::AwaitExit,
        ]
    );
    let (s3, a3) = step(s2, cap, TermEvent::KillWaitReturned);
    assert_eq!(s3, TermState::Terminated);
    assert_eq!(a3, vec![]);
}

#[test]
fn kill_only_platform_collapses_to_forceful_kill_then_wait() {
    let cap = SignalCapability::KillOnly;
    let (s1, a1) = step(TermState::Running, cap, TermEvent::TerminationRequested);
    assert_eq!(s1, TermState::Escalated);
    assert_eq!(a1, vec![TermAction::SendIndividualKill, TermAction::AwaitExit]);
    let (s2, a2) = step(s1, cap, TermEvent::KillWaitReturned);
    assert_eq!(s2, TermState::Terminated);
    assert_eq!(a2, vec![]);
}

#[test]
fn shutdown_reaches_terminated_within_three_driven_events() {
    for cap in [SignalCapability::GroupSignal, SignalCapability::KillOnly] {
        for exited in [true, false] {
            let mut s = TermState::Running;
            let mut driven = 0;
            let (next, _) = step(s, cap, TermEvent::TerminationRequested);
            s = next;
            driven += 1;
            if s == TermState::GracePeriod {
                let (next, _) = step(s, cap, TermEvent::GraceElapsed { exited });
                s = next;
                driven += 1;
            }
            if s == TermState::Escalated {
                let (next, _) = step(s, cap, TermEvent::KillWaitReturned);
                s = next;
                driven += 1;
            }
            assert_eq!(s, TermState::Terminated);
            assert!(driven <= 3);
        }
    }
}

#[test]
fn terminated_is_absorbing() {
    let cap = SignalCapability::GroupSignal;
    for ev in [
        TermEvent::TerminationRequested,
        TermEvent::GraceElapsed { exited: false },
        TermEvent::KillWaitReturned,
    ] {
        let (s, a) = step(TermState::Terminated, cap, ev);
        assert_eq!(s, TermState::Terminated);
        assert_eq!(a, vec![]);
    }
}

#[test]
fn out_of_place_events_are_ignored() {
    let cap = SignalCapability::GroupSignal;
    let (s, a) = step(TermState::Running, cap, TermEvent::KillWaitReturned);
    assert_eq!(s, TermState::Running);
    assert_eq!(a, vec![]);
    let (s, a) = step(TermState::GracePeriod, cap, TermEvent::TerminationRequested);
    assert_eq!(s, TermState::GracePeriod);
    assert_eq!(a, vec![]);
}

fn line_text(l: Option<OutputLine>) -> Option<String> {
    l.map(|l| l.text)
}

#[test]
fn relay_delivers_lines_in_write_order() {
    let mut relay = StreamRelay::new(StreamKind::Stdout);
    let a = relay.on_read(ReadEvent::Line("first".to_string()));
    let b = relay.on_read(ReadEvent::Line("second".to_string()));
    let c = relay.on_read(ReadEvent::Line("third".to_string()));
    assert_eq!(line_text(a), Some("first".to_string()));
    assert_eq!(line_text(b), Some("second".to_string()));
    assert_eq!(line_text(c), Some("third".to_string()));
}

#[test]
fn relay_tags_lines_with_its_stream() {
    let mut out_relay = StreamRelay::new(StreamKind::Stdout);
    let l = out_relay.on_read(ReadEvent::Line("x".to_string())).unwrap();
    assert_eq!(l.stream, StreamKind::Stdout);
    let mut err_relay = StreamRelay::new(StreamKind::Stderr);
    let l = err_relay.on_read(ReadEvent::Line("y".to_string())).unwrap();
    assert_eq!(l.stream, StreamKind::Stderr);
}

#[test]
fn relay_drops_undecodable_lines_and_goes_on() {
    let mut relay = StreamRelay::new(StreamKind::Stderr);
    assert_eq!(line_text(relay.on_read(ReadEvent::Line("ok".to_string()))), Some("ok".to_string()));
    assert_eq!(line_text(relay.on_read(ReadEvent::Undecodable)), None);
    assert_eq!(
        line_text(relay.on_read(ReadEvent::Line("still ok".to_string()))),
        Some("still ok".to_string())
    );
}

#[test]
fn relay_closes_quietly_at_end_of_stream() {
    let mut relay = StreamRelay::new(StreamKind::Stdout);
    relay.on_read(ReadEvent::Line("last".to_string()));
    assert_eq!(line_text(relay.on_read(ReadEvent::Closed)), None);
    assert!(relay.closed);
}

#[test]
fn prepare_launch_rejects_before_any_process_work() {
    let req = StartRequest {
        connection: "serial".to_string(),
        name: None,
        code: None,
        upsample: RawRate::Absent,
        rate_limit: RawRate::Absent,
    };
    let r = prepare_launch(req, Mode::Packaged, empty_probe(), HostOs::OtherPosix);
    assert_eq!(r.err(), Some(ConfigError::UnknownConnection));
}

#[test]
fn prepare_launch_builds_the_full_plan() {
    let req = StartRequest {
        connection: "wifi".to_string(),
        name: None,
        code: None,
        upsample: RawRate::Millihertz(90000),
        rate_limit: RawRate::Absent,
    };
    let mut probe = empty_probe();
    probe.runtime_env_interpreter = Some("/data/.venv/bin/python".to_string());
    let plan = prepare_launch(req, Mode::Packaged, probe, HostOs::OtherPosix).unwrap();
    assert_eq!(plan.program, "/data/.venv/bin/python");
    assert_eq!(
        plan.args,
        vec!["-m", "televoodoo", "--connection", "wifi", "--upsample-hz", "90"]
    );
    assert!(plan.new_process_group);
}

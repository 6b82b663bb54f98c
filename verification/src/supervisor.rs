//! The singleton supervisor: the one owner of the "current worker handle"
//! slot. The host holds one exclusive lock around a whole start or stop
//! (retire-then-launch, not just the pointer swap); within that critical
//! section it drives the protocol below. At most one handle is ever
//! current, and a start hands any previous handle to the termination
//! sequencer before the new worker is spawned.

use vstd::prelude::*;

verus! {

/// The live worker as the supervisor tracks it: the process identifier and,
/// on hosts with process groups, the group the launcher placed it in.
#[derive(Clone, Copy, PartialEq, Eq, Structural, Debug)]
pub struct WorkerHandle {
    pub pid: u64,
    pub group: Option<u64>,
}

/// The supervisor's state. `mid_start` is true between the retire phase and
/// the install phase of one start, while the caller still holds the lock;
/// the slot is empty for that whole span, so no stale handle can be
/// observed mid-start.
pub struct Supervisor {
    pub current: Option<WorkerHandle>,
    pub mid_start: bool,
}

impl Supervisor {
    /// The state invariant: while a start is mid-flight the slot is empty.
    pub open spec fn wf(self) -> bool {
        self.mid_start ==> self.current is None
    }

    /// A fresh supervisor, constructed once at host startup: no worker, no
    /// start in flight.
    pub fn new() -> (r: Supervisor)
        ensures
            r.wf(),
            r.current is None,
            !r.mid_start,
    {
        Supervisor { current: None, mid_start: false }
    }

    /// First phase of a start: empties the slot and hands back whatever
    /// handle was current. The caller must fully retire that handle through
    /// the termination sequencer before it spawns the replacement — old
    /// before new, never two workers at once, even transiently.
    pub fn begin_start(&mut self) -> (retire: Option<WorkerHandle>)
        requires
            old(self).wf(),
            !old(self).mid_start,
        ensures
            final(self).wf(),
            final(self).mid_start,
            final(self).current is None,
            retire == old(self).current,
            (*final(self), retire) == spec_begin_start(*old(self)),
    {
        self.mid_start = true;
        let retire = self.current;
        self.current = None;
        retire
    }

    /// Second phase of a start: records the spawn outcome. On success the
    /// new handle — and only it — becomes current and the caller gets
    /// success; on a spawn failure the slot stays empty and the error is
    /// surfaced verbatim. Exactly one of "a handle is installed" and "an
    /// error is returned" holds, never both.
    pub fn complete_start(&mut self, outcome: Result<WorkerHandle, String>) -> (r: Result<
        (),
        String,
    >)
        requires
            old(self).wf(),
            old(self).mid_start,
        ensures
            final(self).wf(),
            !final(self).mid_start,
            outcome matches Ok(h) ==> final(self).current == Some(h) && r is Ok,
            outcome matches Err(m) ==> final(self).current is None && r == Err::<(), String>(m),
            r is Ok <==> final(self).current is Some,
            (*final(self), r) == spec_complete_start(*old(self), outcome),
    {
        self.mid_start = false;
        match outcome {
            Ok(h) => {
                self.current = Some(h);
                Ok(())
            },
            Err(m) => Err(m),
        }
    }

    /// A stop request: empties the slot and hands back the handle to
    /// retire, if any. With no current handle this is a no-op success —
    /// nothing to retire, no process operation to perform. The caller
    /// reports success to the requester either way, because termination is
    /// best-effort cleanup.
    pub fn stop(&mut self) -> (retire: Option<WorkerHandle>)
        requires
            old(self).wf(),
            !old(self).mid_start,
        ensures
            final(self).wf(),
            !final(self).mid_start,
            final(self).current is None,
            retire == old(self).current,
            old(self).current is None ==> retire is None,
            (*final(self), retire) == spec_stop(*old(self)),
    {
        let retire = self.current;
        self.current = None;
        retire
    }
}

/// The spec-level mirror of [`Supervisor::begin_start`].
pub open spec fn spec_begin_start(s: Supervisor) -> (Supervisor, Option<WorkerHandle>) {
    (Supervisor { current: None, mid_start: true }, s.current)
}

/// The spec-level mirror of [`Supervisor::complete_start`].
pub open spec fn spec_complete_start(s: Supervisor, outcome: Result<WorkerHandle, String>) -> (
    Supervisor,
    Result<(), String>,
) {
    match outcome {
        Ok(h) => (Supervisor { current: Some(h), mid_start: false }, Ok(())),
        Err(m) => (Supervisor { current: None, mid_start: false }, Err(m)),
    }
}

/// The spec-level mirror of [`Supervisor::stop`].
pub open spec fn spec_stop(s: Supervisor) -> (Supervisor, Option<WorkerHandle>) {
    (Supervisor { current: None, mid_start: false }, s.current)
}

/// A whole start, as the two phases compose under the caller's lock: the
/// old handle (if any) goes to the sequencer, and afterwards either exactly
/// the newly spawned handle is current and the caller got success, or the
/// slot is empty and the caller got the spawn error — never both an error
/// and an installed handle, and never a handle other than the new one.
pub proof fn lemma_start_installs_or_errors(s0: Supervisor, outcome: Result<WorkerHandle, String>)
    requires
        s0.wf(),
        !s0.mid_start,
    ensures
        ({
            let (s1, retire) = spec_begin_start(s0);
            let (s2, r) = spec_complete_start(s1, outcome);
            &&& retire == s0.current
            &&& s1.current is None
            &&& (r is Ok <==> s2.current is Some)
            &&& (outcome matches Ok(h) ==> s2.current == Some(h) && r is Ok)
            &&& (outcome matches Err(m) ==> s2.current is None && r == Err::<(), String>(m))
            &&& s2.wf()
            &&& !s2.mid_start
        }),
{
}

/// Two starts back to back (the race settled by the lock): the second start
/// retires exactly the handle the first installed — the first worker is
/// handed to the sequencer before the second is spawned — and when both
/// calls have settled, the only current handle is the one the second spawn
/// produced. At no point are two handles current.
pub proof fn lemma_second_start_retires_first(
    s0: Supervisor,
    outcome1: Result<WorkerHandle, String>,
    outcome2: Result<WorkerHandle, String>,
)
    requires
        s0.wf(),
        !s0.mid_start,
        s0.current is None,
    ensures
        ({
            let (s1, _) = spec_begin_start(s0);
            let (s2, _) = spec_complete_start(s1, outcome1);
            let (s3, retire2) = spec_begin_start(s2);
            let (s4, _) = spec_complete_start(s3, outcome2);
            &&& (outcome1 matches Ok(h1) ==> retire2 == Some(h1))
            &&& (outcome1 is Err ==> retire2 is None)
            &&& (outcome2 matches Ok(h2) ==> s4.current == Some(h2))
            &&& (outcome2 is Err ==> s4.current is None)
        }),
{
}

/// A stop with no current handle is a no-op success: nothing is handed to
/// the sequencer, and the state does not change in any observable way.
pub proof fn lemma_stop_without_worker_is_noop(s0: Supervisor)
    requires
        s0.wf(),
        !s0.mid_start,
        s0.current is None,
    ensures
        spec_stop(s0).1 is None,
        spec_stop(s0).0 == s0,
{
}

} // verus!

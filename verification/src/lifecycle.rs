//! Lifecycle of the bridge singleton: at most one instance runs at a time,
//! a start while one is live is rejected with no side effects, and a stop
//! clears the instance and asks for the shutdown signal exactly once.

use vstd::prelude::*;

verus! {

/// Outcome of a start request, as reported to the host environment.
#[derive(PartialEq, Eq, Structural, Clone, Copy, Debug)]
pub enum StartStatus {
    /// A bridge instance is already live; nothing was changed.
    AlreadyRunning,
    /// The listener was bound and the tunnel established; the bridge is live.
    Started,
    /// Binding or connecting failed; no bridge instance was installed.
    Failed,
}

/// Outcome of a stop request.
#[derive(PartialEq, Eq, Structural, Clone, Copy, Debug)]
pub enum StopStatus {
    /// A live instance was cleared and the shutdown signal sent.
    Stopped,
    /// No instance was live; nothing was changed.
    NotRunning,
}

/// Control state of the process-wide bridge singleton. The caller keeps one
/// value of this type behind its own mutual exclusion and drives every start
/// and stop request through it, so the check-then-act sequence is atomic.
#[derive(PartialEq, Eq, Structural, Clone, Copy, Debug)]
pub struct BridgeControl {
    /// Whether a bridge instance (listener, tunnel, shutdown channel) is live.
    pub running: bool,
}

/// The status a start request reports: rejected while an instance is live,
/// otherwise decided by whether the setup work succeeded.
pub open spec fn start_status(s: BridgeControl, setup_ok: bool) -> StartStatus {
    if s.running {
        StartStatus::AlreadyRunning
    } else if setup_ok {
        StartStatus::Started
    } else {
        StartStatus::Failed
    }
}

/// The control state after a start request. Only a successful setup from a
/// stopped state installs an instance; a rejected or failed start changes
/// nothing (all-or-nothing start).
pub open spec fn start_transition(s: BridgeControl, setup_ok: bool) -> BridgeControl {
    if !s.running && setup_ok {
        BridgeControl { running: true }
    } else {
        s
    }
}

/// The status a stop request reports.
pub open spec fn stop_status(s: BridgeControl) -> StopStatus {
    if s.running {
        StopStatus::Stopped
    } else {
        StopStatus::NotRunning
    }
}

/// The control state after a stop request: never running.
pub open spec fn stop_transition(s: BridgeControl) -> BridgeControl {
    BridgeControl { running: false }
}

impl BridgeControl {
    /// Fresh control state: no instance is live.
    pub fn new() -> (c: BridgeControl)
        ensures
            !c.running,
    {
        BridgeControl { running: false }
    }

    /// Whether a start request may proceed to the setup work: only while no
    /// instance is live. The caller holds its lock across this check and the
    /// following `handle_start`, so no second start can slip in between.
    pub fn may_start(&self) -> (r: bool)
        ensures
            r == !self.running,
    {
        !self.running
    }

    /// Decide a start request. `setup_ok` is the outcome of the setup work
    /// (binding the listener and connecting the tunnel), which the caller
    /// performs only when no instance is live; its value is ignored
    /// otherwise. Returns the status to report.
    pub fn handle_start(&mut self, setup_ok: bool) -> (r: StartStatus)
        ensures
            r == start_status(*old(self), setup_ok),
            *final(self) == start_transition(*old(self), setup_ok),
    {
        if self.running {
            StartStatus::AlreadyRunning
        } else if setup_ok {
            self.running = true;
            StartStatus::Started
        } else {
            StartStatus::Failed
        }
    }

    /// Decide a stop request. Returns `Stopped` exactly when an instance was
    /// live; the caller then sends the shutdown signal. The instance is
    /// cleared in every case.
    pub fn handle_stop(&mut self) -> (r: StopStatus)
        ensures
            r == stop_status(*old(self)),
            *final(self) == stop_transition(*old(self)),
    {
        if self.running {
            self.running = false;
            StopStatus::Stopped
        } else {
            StopStatus::NotRunning
        }
    }
}

/// Starting twice without an intervening stop is rejected: once a start has
/// succeeded, a second start reports `AlreadyRunning` and leaves the control
/// state, and so the installed listener and tunnel, untouched.
pub proof fn lemma_second_start_rejected(s: BridgeControl, ok1: bool, ok2: bool)
    requires
        start_status(s, ok1) == StartStatus::Started,
    ensures
        start_status(start_transition(s, ok1), ok2) == StartStatus::AlreadyRunning,
        start_transition(start_transition(s, ok1), ok2) == start_transition(s, ok1),
{
}

/// Stopping when never started reports `NotRunning` and has no side effects:
/// the control state is unchanged and no shutdown signal is owed.
pub proof fn lemma_stop_without_start(s: BridgeControl)
    requires
        !s.running,
    ensures
        stop_status(s) == StopStatus::NotRunning,
        stop_transition(s) == s,
{
}

/// The shutdown signal is asked for at most once: whatever the state, a stop
/// followed by another stop has the second report `NotRunning`.
pub proof fn lemma_stop_consumed_once(s: BridgeControl)
    ensures
        stop_status(stop_transition(s)) == StopStatus::NotRunning,
{
}

/// What the accept loop saw next: the shutdown signal, or a new local
/// connection.
#[derive(PartialEq, Eq, Structural, Clone, Copy, Debug)]
pub enum AcceptEvent {
    /// The shutdown signal fired.
    ShutdownSignalled,
    /// The listener accepted a connection.
    ConnectionAccepted,
}

/// What the accept loop does with that event.
#[derive(PartialEq, Eq, Structural, Clone, Copy, Debug)]
pub enum AcceptAction {
    /// Stop admitting connections at once. Sessions already spawned are not
    /// cancelled; they run to natural completion or transport failure.
    StopAccepting,
    /// Spawn an independent session for the connection and keep accepting.
    SpawnSession,
}

/// Decide the accept loop's next step: the shutdown signal stops the loop
/// immediately, and nothing else does.
pub fn accept_decision(e: AcceptEvent) -> (a: AcceptAction)
    ensures
        a == AcceptAction::StopAccepting <==> e == AcceptEvent::ShutdownSignalled,
        a == AcceptAction::SpawnSession <==> e == AcceptEvent::ConnectionAccepted,
{
    match e {
        AcceptEvent::ShutdownSignalled => AcceptAction::StopAccepting,
        AcceptEvent::ConnectionAccepted => AcceptAction::SpawnSession,
    }
}

/// The message a start status is reported as.
pub fn start_status_message(r: StartStatus) -> (m: &'static str)
    ensures
        r == StartStatus::AlreadyRunning ==> m@ == "Service is already running"@,
        r == StartStatus::Started ==> m@ == "Service started successfully"@,
        r == StartStatus::Failed ==> m@ == "Failed to start service: "@,
{
    match r {
        StartStatus::AlreadyRunning => "Service is already running",
        StartStatus::Started => "Service started successfully",
        StartStatus::Failed => "Failed to start service: ",
    }
}

/// The message a stop status is reported as.
pub fn stop_status_message(r: StopStatus) -> (m: &'static str)
    ensures
        r == StopStatus::Stopped ==> m@ == "Service stopped successfully"@,
        r == StopStatus::NotRunning ==> m@ == "Service was not running"@,
{
    match r {
        StopStatus::Stopped => "Service stopped successfully",
        StopStatus::NotRunning => "Service was not running",
    }
}

} // verus!

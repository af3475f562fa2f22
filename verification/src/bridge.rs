//! The control bridge: decodes the control codes and session notifications
//! the service control manager delivers into [`ServiceEvent`] values, pushes
//! them onto the event channel in arrival order, and reports lifecycle
//! status back to the control manager through the status handle.

use vstd::prelude::*;
use crate::ServiceEvent;
use crate::channel::EventQueue;
use crate::session::Session;

verus! {

/// Control code ordering the service to stop.
pub const CONTROL_STOP: u32 = 1;

/// Control code ordering the service to pause.
pub const CONTROL_PAUSE: u32 = 2;

/// Control code ordering a paused service to continue.
pub const CONTROL_CONTINUE: u32 = 3;

/// Control code announcing a session-change notification; the event type
/// and session identifier delivered with it select the event.
pub const CONTROL_SESSION_CHANGE: u32 = 14;

/// Session-change event type: a session was connected to the console.
pub const SESSION_CONSOLE_CONNECT: u32 = 1;

/// Session-change event type: a session was disconnected from the console.
pub const SESSION_CONSOLE_DISCONNECT: u32 = 2;

/// Session-change event type: a session was connected to a remote terminal.
pub const SESSION_REMOTE_CONNECT: u32 = 3;

/// Session-change event type: a session was disconnected from a remote
/// terminal.
pub const SESSION_REMOTE_DISCONNECT: u32 = 4;

/// Session-change event type: a user logged on.
pub const SESSION_LOGON: u32 = 5;

/// Session-change event type: a user logged off.
pub const SESSION_LOGOFF: u32 = 6;

/// Session-change event type: a session was locked.
pub const SESSION_LOCK: u32 = 7;

/// Session-change event type: a session was unlocked.
pub const SESSION_UNLOCK: u32 = 8;

/// One control request as the control manager hands it to the control
/// handler: the control code, and, for session-change notifications, the
/// event type and the identifier of the session concerned.
#[derive(Clone, Copy, Debug, PartialEq, Eq, Structural)]
pub struct ControlRequest {
    pub control: u32,
    pub event_type: u32,
    pub session_id: u32,
}

/// What decoding a control request yields: exactly one event for each
/// supported control code or session notification, and no event at all for
/// any other code. Total and deterministic.
pub open spec fn spec_decode<T>(request: ControlRequest) -> Option<ServiceEvent<T>> {
    if request.control == CONTROL_STOP {
        Some(ServiceEvent::Stop)
    } else if request.control == CONTROL_PAUSE {
        Some(ServiceEvent::Pause)
    } else if request.control == CONTROL_CONTINUE {
        Some(ServiceEvent::Continue)
    } else if request.control == CONTROL_SESSION_CHANGE {
        let session = Session { id: request.session_id };
        if request.event_type == SESSION_CONSOLE_CONNECT {
            Some(ServiceEvent::SessionConnect(session))
        } else if request.event_type == SESSION_CONSOLE_DISCONNECT {
            Some(ServiceEvent::SessionDisconnect(session))
        } else if request.event_type == SESSION_REMOTE_CONNECT {
            Some(ServiceEvent::SessionRemoteConnect(session))
        } else if request.event_type == SESSION_REMOTE_DISCONNECT {
            Some(ServiceEvent::SessionRemoteDisconnect(session))
        } else if request.event_type == SESSION_LOGON {
            Some(ServiceEvent::SessionLogon(session))
        } else if request.event_type == SESSION_LOGOFF {
            Some(ServiceEvent::SessionLogoff(session))
        } else if request.event_type == SESSION_LOCK {
            Some(ServiceEvent::SessionLock(session))
        } else if request.event_type == SESSION_UNLOCK {
            Some(ServiceEvent::SessionUnlock(session))
        } else {
            None
        }
    } else {
        None
    }
}

/// Decodes one control request into its event, or `None` for a code or
/// session event type with no defined application meaning; such requests
/// are dropped silently, never surfaced as errors.
pub fn decode_control<T>(request: &ControlRequest) -> (r: Option<ServiceEvent<T>>)
    ensures
        r == spec_decode::<T>(*request),
{
    if request.control == CONTROL_STOP {
        Some(ServiceEvent::Stop)
    } else if request.control == CONTROL_PAUSE {
        Some(ServiceEvent::Pause)
    } else if request.control == CONTROL_CONTINUE {
        Some(ServiceEvent::Continue)
    } else if request.control == CONTROL_SESSION_CHANGE {
        let session = Session { id: request.session_id };
        if request.event_type == SESSION_CONSOLE_CONNECT {
            Some(ServiceEvent::SessionConnect(session))
        } else if request.event_type == SESSION_CONSOLE_DISCONNECT {
            Some(ServiceEvent::SessionDisconnect(session))
        } else if request.event_type == SESSION_REMOTE_CONNECT {
            Some(ServiceEvent::SessionRemoteConnect(session))
        } else if request.event_type == SESSION_REMOTE_DISCONNECT {
            Some(ServiceEvent::SessionRemoteDisconnect(session))
        } else if request.event_type == SESSION_LOGON {
            Some(ServiceEvent::SessionLogon(session))
        } else if request.event_type == SESSION_LOGOFF {
            Some(ServiceEvent::SessionLogoff(session))
        } else if request.event_type == SESSION_LOCK {
            Some(ServiceEvent::SessionLock(session))
        } else if request.event_type == SESSION_UNLOCK {
            Some(ServiceEvent::SessionUnlock(session))
        } else {
            None
        }
    } else {
        None
    }
}

/// Decoding is a total, deterministic mapping: every supported control code
/// and session event type yields exactly its one event, and every other
/// code yields none, whatever the session identifier.
pub proof fn lemma_decode_table<T>(request: ControlRequest)
    ensures
        request.control == CONTROL_STOP ==> spec_decode::<T>(request) == Some(
            ServiceEvent::<T>::Stop,
        ),
        request.control == CONTROL_PAUSE ==> spec_decode::<T>(request) == Some(
            ServiceEvent::<T>::Pause,
        ),
        request.control == CONTROL_CONTINUE ==> spec_decode::<T>(request) == Some(
            ServiceEvent::<T>::Continue,
        ),
        request.control == CONTROL_SESSION_CHANGE && request.event_type == SESSION_CONSOLE_CONNECT
            ==> spec_decode::<T>(request) == Some(
            ServiceEvent::<T>::SessionConnect(Session { id: request.session_id }),
        ),
        request.control == CONTROL_SESSION_CHANGE && request.event_type
            == SESSION_CONSOLE_DISCONNECT ==> spec_decode::<T>(request) == Some(
            ServiceEvent::<T>::SessionDisconnect(Session { id: request.session_id }),
        ),
        request.control == CONTROL_SESSION_CHANGE && request.event_type == SESSION_REMOTE_CONNECT
            ==> spec_decode::<T>(request) == Some(
            ServiceEvent::<T>::SessionRemoteConnect(Session { id: request.session_id }),
        ),
        request.control == CONTROL_SESSION_CHANGE && request.event_type
            == SESSION_REMOTE_DISCONNECT ==> spec_decode::<T>(request) == Some(
            ServiceEvent::<T>::SessionRemoteDisconnect(Session { id: request.session_id }),
        ),
        request.control == CONTROL_SESSION_CHANGE && request.event_type == SESSION_LOGON
            ==> spec_decode::<T>(request) == Some(
            ServiceEvent::<T>::SessionLogon(Session { id: request.session_id }),
        ),
        request.control == CONTROL_SESSION_CHANGE && request.event_type == SESSION_LOGOFF
            ==> spec_decode::<T>(request) == Some(
            ServiceEvent::<T>::SessionLogoff(Session { id: request.session_id }),
        ),
        request.control == CONTROL_SESSION_CHANGE && request.event_type == SESSION_LOCK
            ==> spec_decode::<T>(request) == Some(
            ServiceEvent::<T>::SessionLock(Session { id: request.session_id }),
        ),
        request.control == CONTROL_SESSION_CHANGE && request.event_type == SESSION_UNLOCK
            ==> spec_decode::<T>(request) == Some(
            ServiceEvent::<T>::SessionUnlock(Session { id: request.session_id }),
        ),
        request.control != CONTROL_STOP && request.control != CONTROL_PAUSE && request.control
            != CONTROL_CONTINUE && request.control != CONTROL_SESSION_CHANGE ==> spec_decode::<
            T,
        >(request) is None,
        request.control == CONTROL_SESSION_CHANGE && (request.event_type < SESSION_CONSOLE_CONNECT
            || request.event_type > SESSION_UNLOCK) ==> spec_decode::<T>(request) is None,
{
}

/// The lifecycle states a service reports to the control manager.
#[derive(Clone, Copy, Debug, PartialEq, Eq, Structural)]
pub enum ServiceState {
    StartPending,
    Running,
    PausePending,
    Paused,
    ContinuePending,
    StopPending,
    Stopped,
}

/// One status update sent through the status handle: the lifecycle state
/// and the service's exit code (meaningful only with `Stopped`).
#[derive(Clone, Copy, Debug, PartialEq, Eq, Structural)]
pub struct StatusReport {
    pub state: ServiceState,
    pub exit_code: u32,
}

/// The status report acknowledging a stop request: the service is on its
/// way toward `Stopped`.
pub open spec fn stop_ack_report() -> StatusReport {
    StatusReport { state: ServiceState::StopPending, exit_code: 0 }
}

/// The status-report handle for one service run: acquired once at
/// registration, updated while the service runs, released when the run
/// ends. It records every report in order, so contracts can state the
/// exact reporting cadence. The handle is exclusively owned by the bridge;
/// once released it accepts no further report, which makes loss of the
/// handle unrecoverable for the run, as the protocol demands.
pub struct StatusHandle {
    open: bool,
    reports: Vec<StatusReport>,
}

impl StatusHandle {
    /// Whether the handle still accepts status reports.
    pub closed spec fn spec_open(&self) -> bool {
        self.open
    }

    /// Every status report sent through this handle, oldest first.
    pub closed spec fn spec_reports(&self) -> Seq<StatusReport> {
        self.reports@
    }

    /// Acquires the status handle for one service run.
    pub fn acquire() -> (h: StatusHandle)
        ensures
            h.spec_open(),
            h.spec_reports() == Seq::<StatusReport>::empty(),
    {
        StatusHandle { open: true, reports: Vec::new() }
    }

    /// Whether the handle still accepts status reports.
    pub fn is_open(&self) -> (b: bool)
        ensures
            b == self.spec_open(),
    {
        self.open
    }

    /// The status reports sent so far, oldest first.
    pub fn reports(&self) -> (r: &Vec<StatusReport>)
        ensures
            r@ == self.spec_reports(),
    {
        &self.reports
    }

    /// Sends one status report to the control manager.
    pub fn report_status(&mut self, state: ServiceState, exit_code: u32)
        requires
            old(self).spec_open(),
        ensures
            final(self).spec_open(),
            final(self).spec_reports() == old(self).spec_reports().push(
                StatusReport { state, exit_code },
            ),
    {
        self.reports.push(StatusReport { state, exit_code });
    }

    /// Releases the handle; no report can follow.
    pub fn release(&mut self)
        requires
            old(self).spec_open(),
        ensures
            !final(self).spec_open(),
            final(self).spec_reports() == old(self).spec_reports(),
    {
        self.open = false;
    }
}

/// The body of the control handler: decodes one control request and, when
/// it carries a defined meaning, pushes its event onto the channel behind
/// everything already pending. Unrecognized requests leave the channel
/// untouched. A stop request is acknowledged synchronously, within this
/// same invocation, by a `StopPending` status report — the protocol's
/// hard timing requirement. Returns whether an event was pushed.
/// Decode, push and acknowledge are all the handler does, so its
/// invocation stays bounded-time and never waits on application logic.
pub fn handle_control<T>(
    queue: &mut EventQueue<T>,
    handle: &mut StatusHandle,
    request: &ControlRequest,
) -> (pushed: bool)
    requires
        old(handle).spec_open(),
    ensures
        spec_decode::<T>(*request) is Some ==> pushed && final(queue)@ == old(queue)@.push(
            spec_decode::<T>(*request)->0,
        ),
        spec_decode::<T>(*request) is None ==> !pushed && final(queue)@ == old(queue)@,
        final(handle).spec_open(),
        request.control == CONTROL_STOP ==> final(handle).spec_reports() == old(
            handle,
        ).spec_reports().push(stop_ack_report()),
        request.control != CONTROL_STOP ==> final(handle).spec_reports() == old(
            handle,
        ).spec_reports(),
{
    match decode_control::<T>(request) {
        Some(event) => {
            queue.send(event);
            if request.control == CONTROL_STOP {
                handle.report_status(ServiceState::StopPending, 0);
            }
            true
        },
        None => false,
    }
}

/// The events a sequence of control requests decodes to, in arrival order,
/// with unrecognized requests dropped.
pub open spec fn spec_decoded_events<T>(requests: Seq<ControlRequest>) -> Seq<ServiceEvent<T>>
    decreases requests.len(),
{
    if requests.len() == 0 {
        Seq::empty()
    } else {
        let rest = spec_decoded_events::<T>(requests.drop_last());
        match spec_decode::<T>(requests.last()) {
            Some(event) => rest.push(event),
            None => rest,
        }
    }
}

/// The stop acknowledgments a sequence of control requests draws from the
/// handler, in arrival order: one `StopPending` report per stop request.
pub open spec fn spec_stop_acks(requests: Seq<ControlRequest>) -> Seq<StatusReport>
    decreases requests.len(),
{
    if requests.len() == 0 {
        Seq::empty()
    } else {
        let rest = spec_stop_acks(requests.drop_last());
        if requests.last().control == CONTROL_STOP {
            rest.push(stop_ack_report())
        } else {
            rest
        }
    }
}

/// Feeds a batch of control requests through the handler in order: the
/// channel afterwards holds what it held before, followed by the decoded
/// events in arrival order — no reordering, no loss — and every stop
/// request has been acknowledged with a `StopPending` status report.
pub fn dispatch_requests<T>(
    queue: &mut EventQueue<T>,
    handle: &mut StatusHandle,
    requests: &Vec<ControlRequest>,
)
    requires
        old(handle).spec_open(),
    ensures
        final(queue)@ == old(queue)@ + spec_decoded_events::<T>(requests@),
        final(handle).spec_open(),
        final(handle).spec_reports() == old(handle).spec_reports() + spec_stop_acks(requests@),
{
    let n = requests.len();
    let mut i: usize = 0;
    while i < n
        invariant
            i <= n,
            n == requests@.len(),
            queue@ == old(queue)@ + spec_decoded_events::<T>(requests@.take(i as int)),
            handle.spec_open(),
            handle.spec_reports() == old(handle).spec_reports() + spec_stop_acks(
                requests@.take(i as int),
            ),
        decreases n - i,
    {
        proof {
            assert(requests@.take(i + 1).drop_last() =~= requests@.take(i as int));
            assert(requests@.take(i + 1).last() == requests@[i as int]);
        }
        handle_control(queue, handle, &requests[i]);
        i = i + 1;
    }
    proof {
        assert(requests@.take(n as int) =~= requests@);
    }
}

/// The status report sent as soon as the entry point is invoked.
pub open spec fn start_pending_report() -> StatusReport {
    StatusReport { state: ServiceState::StartPending, exit_code: 0 }
}

/// The final status report of a run whose service-main returned `exit`.
pub open spec fn stopped_report(exit: u32) -> StatusReport {
    StatusReport { state: ServiceState::Stopped, exit_code: exit }
}

/// The entry point's work for one service run: immediately reports
/// `StartPending` through the freshly acquired status handle, calls the
/// application's service-main function `f` with the event channel, the
/// arguments the control manager delivered, and `standalone == false`,
/// and, once `f` returns, reports `Stopped` carrying `f`'s exit code
/// verbatim and releases the handle. The handle ends released, having
/// carried exactly the `StartPending` report, then whatever `f`'s run
/// required, then the final `Stopped` report.
pub fn run_service<T, F: FnOnce(EventQueue<T>, Vec<String>, bool) -> u32>(
    f: F,
    events: EventQueue<T>,
    args: Vec<String>,
    handle: &mut StatusHandle,
) -> (exit: u32)
    requires
        old(handle).spec_open(),
        call_requires(f, (events, args, false)),
    ensures
        call_ensures(f, (events, args, false), exit),
        !final(handle).spec_open(),
        final(handle).spec_reports() == old(handle).spec_reports().push(
            start_pending_report(),
        ).push(stopped_report(exit)),
{
    handle.report_status(ServiceState::StartPending, 0);
    let exit = f(events, args, false);
    handle.report_status(ServiceState::Stopped, exit);
    handle.release();
    exit
}

} // verus!

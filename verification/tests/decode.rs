use ceviche::ServiceEvent;
use ceviche::bridge::{
    self, ControlRequest, CONTROL_CONTINUE, CONTROL_PAUSE, CONTROL_SESSION_CHANGE, CONTROL_STOP,
    SESSION_CONSOLE_CONNECT, SESSION_CONSOLE_DISCONNECT, SESSION_LOCK, SESSION_LOGOFF,
    SESSION_LOGON, SESSION_REMOTE_CONNECT, SESSION_REMOTE_DISCONNECT, SESSION_UNLOCK,
};
use ceviche::channel::EventQueue;
use ceviche::session::Session;

fn control(code: u32) -> ControlRequest {
    ControlRequest { control: code, event_type: 0, session_id: 0 }
}

fn session_change(event_type: u32, session_id: u32) -> ControlRequest {
    ControlRequest { control: CONTROL_SESSION_CHANGE, event_type, session_id }
}

#[test]
fn decode_stop() {
    let r: Option<ServiceEvent<u8>> = bridge::decode_control(&control(CONTROL_STOP));
    assert_eq!(r, Some(ServiceEvent::Stop));
}

#[test]
fn decode_pause() {
    let r: Option<ServiceEvent<u8>> = bridge::decode_control(&control(CONTROL_PAUSE));
    assert_eq!(r, Some(ServiceEvent::Pause));
}

#[test]
fn decode_continue() {
    let r: Option<ServiceEvent<u8>> = bridge::decode_control(&control(CONTROL_CONTINUE));
    assert_eq!(r, Some(ServiceEvent::Continue));
}

#[test]
fn decode_session_events() {
    let cases: Vec<(u32, ServiceEvent<u8>)> = vec![
        (SESSION_CONSOLE_CONNECT, ServiceEvent::SessionConnect(Session::new(5))),
        (SESSION_CONSOLE_DISCONNECT, ServiceEvent::SessionDisconnect(Session::new(5))),
        (SESSION_REMOTE_CONNECT, ServiceEvent::SessionRemoteConnect(Session::new(5))),
        (SESSION_REMOTE_DISCONNECT, ServiceEvent::SessionRemoteDisconnect(Session::new(5))),
        (SESSION_LOGON, ServiceEvent::SessionLogon(Session::new(5))),
        (SESSION_LOGOFF, ServiceEvent::SessionLogoff(Session::new(5))),
        (SESSION_LOCK, ServiceEvent::SessionLock(Session::new(5))),
        (SESSION_UNLOCK, ServiceEvent::SessionUnlock(Session::new(5))),
    ];
    for (event_type, expected) in cases {
        let r: Option<ServiceEvent<u8>> = bridge::decode_control(&session_change(event_type, 5));
        assert_eq!(r, Some(expected));
    }
}

#[test]
fn decode_keeps_session_id() {
    let r: Option<ServiceEvent<u8>> = bridge::decode_control(&session_change(SESSION_LOGON, 42));
    assert_eq!(r, Some(ServiceEvent::SessionLogon(Session::new(42))));
}

#[test]
fn decode_unrecognized_control_codes() {
    for code in [0, 4, 5, 13, 15, 99, u32::MAX] {
        let r: Option<ServiceEvent<u8>> = bridge::decode_control(&control(code));
        assert_eq!(r, None);
    }
}

#[test]
fn decode_unrecognized_session_event_types() {
    for event_type in [0, 9, 10, 99, u32::MAX] {
        let r: Option<ServiceEvent<u8>> = bridge::decode_control(&session_change(event_type, 1));
        assert_eq!(r, None);
    }
}

#[test]
fn handler_pushes_decoded_event() {
    let mut queue: EventQueue<u8> = EventQueue::new();
    let mut handle = bridge::StatusHandle::acquire();
    let pushed = bridge::handle_control(&mut queue, &mut handle, &control(CONTROL_PAUSE));
    assert!(pushed);
    assert_eq!(queue.len(), 1);
    assert_eq!(queue.try_recv(), Some(ServiceEvent::Pause));
    assert!(handle.reports().is_empty());
}

#[test]
fn handler_drops_unrecognized_request() {
    let mut queue: EventQueue<u8> = EventQueue::new();
    let mut handle = bridge::StatusHandle::acquire();
    let pushed = bridge::handle_control(&mut queue, &mut handle, &control(77));
    assert!(!pushed);
    assert_eq!(queue.len(), 0);
    assert!(handle.reports().is_empty());
}

#[test]
fn handler_acknowledges_stop_synchronously() {
    let mut queue: EventQueue<u8> = EventQueue::new();
    let mut handle = bridge::StatusHandle::acquire();
    let pushed = bridge::handle_control(&mut queue, &mut handle, &control(CONTROL_STOP));
    assert!(pushed);
    assert_eq!(queue.try_recv(), Some(ServiceEvent::Stop));
    assert_eq!(handle.reports().len(), 1);
    assert_eq!(handle.reports()[0].state, bridge::ServiceState::StopPending);
}

#[test]
fn dispatch_preserves_arrival_order_and_drops_unknown() {
    let mut queue: EventQueue<u8> = EventQueue::new();
    let mut handle = bridge::StatusHandle::acquire();
    let requests = vec![
        control(CONTROL_CONTINUE),
        control(200),
        session_change(SESSION_LOCK, 3),
        control(CONTROL_PAUSE),
        control(CONTROL_STOP),
    ];
    bridge::dispatch_requests(&mut queue, &mut handle, &requests);
    assert_eq!(queue.try_recv(), Some(ServiceEvent::Continue));
    assert_eq!(queue.try_recv(), Some(ServiceEvent::SessionLock(Session::new(3))));
    assert_eq!(queue.try_recv(), Some(ServiceEvent::Pause));
    assert_eq!(queue.try_recv(), Some(ServiceEvent::Stop));
    assert_eq!(queue.try_recv(), None);
    assert_eq!(handle.reports().len(), 1);
    assert_eq!(handle.reports()[0].state, bridge::ServiceState::StopPending);
}

use ceviche::ServiceEvent;
use ceviche::session::Session;

#[test]
fn display_continue() {
    let ev: ServiceEvent<u8> = ServiceEvent::Continue;
    assert_eq!(ev.display(), "Continue");
}

#[test]
fn display_pause() {
    let ev: ServiceEvent<u8> = ServiceEvent::Pause;
    assert_eq!(ev.display(), "Pause");
}

#[test]
fn display_stop() {
    let ev: ServiceEvent<u8> = ServiceEvent::Stop;
    assert_eq!(ev.display(), "Stop");
}

#[test]
fn display_session_connect() {
    let ev: ServiceEvent<u8> = ServiceEvent::SessionConnect(Session::new(3));
    assert_eq!(ev.display(), "SessionConnect(3)");
}

#[test]
fn display_session_disconnect() {
    let ev: ServiceEvent<u8> = ServiceEvent::SessionDisconnect(Session::new(0));
    assert_eq!(ev.display(), "SessionDisconnect(0)");
}

#[test]
fn display_session_remote_connect() {
    let ev: ServiceEvent<u8> = ServiceEvent::SessionRemoteConnect(Session::new(12));
    assert_eq!(ev.display(), "SessionRemoteConnect(12)");
}

#[test]
fn display_session_remote_disconnect() {
    let ev: ServiceEvent<u8> = ServiceEvent::SessionRemoteDisconnect(Session::new(305));
    assert_eq!(ev.display(), "SessionRemoteDisconnect(305)");
}

#[test]
fn display_session_logon() {
    let ev: ServiceEvent<u8> = ServiceEvent::SessionLogon(Session::new(7));
    assert_eq!(ev.display(), "SessionLogon(7)");
}

#[test]
fn display_session_logoff() {
    let ev: ServiceEvent<u8> = ServiceEvent::SessionLogoff(Session::new(10));
    assert_eq!(ev.display(), "SessionLogoff(10)");
}

#[test]
fn display_session_lock() {
    let ev: ServiceEvent<u8> = ServiceEvent::SessionLock(Session::new(100));
    assert_eq!(ev.display(), "SessionLock(100)");
}

#[test]
fn display_session_unlock() {
    let ev: ServiceEvent<u8> = ServiceEvent::SessionUnlock(Session::new(4294967295));
    assert_eq!(ev.display(), "SessionUnlock(4294967295)");
}

#[test]
fn display_custom() {
    let ev: ServiceEvent<u8> = ServiceEvent::Custom(9);
    assert_eq!(ev.display(), "Custom");
}

#[test]
fn session_display_is_decimal() {
    assert_eq!(Session::new(0).display(), "0");
    assert_eq!(Session::new(9).display(), "9");
    assert_eq!(Session::new(10).display(), "10");
    assert_eq!(Session::new(907).display(), "907");
}

#[test]
fn error_message_is_kept() {
    let e = ceviche::Error::new("something went wrong");
    assert_eq!(e.message, "something went wrong");
}

//! A wrapper library for writing a program that can run either as a
//! background service under an operating system's service control manager,
//! or as an ordinary foreground process (standalone mode).
//!
//! The core is the control bridge: it decodes the control codes and session
//! notifications the control manager delivers into a typed, ordered stream of
//! [`ServiceEvent`] values, hands them to the application's service-main
//! function over a FIFO channel, and reports lifecycle status back through a
//! status handle. The [`controller::Controller`] manages the service's entry
//! in the service database (create, delete, start, stop), releasing every
//! handle it opens before each operation returns.

use vstd::prelude::*;

pub mod bridge;
pub mod channel;
pub mod controller;
pub mod session;
pub mod standalone;
pub mod text;

use session::Session;
use text::dec_rep;
use text::push_dec;

verus! {

/// Service errors: a human-readable message and nothing else. Callers
/// distinguish failure causes by the message text and by the call site,
/// not by a typed error kind.
#[derive(Debug)]
pub struct Error {
    pub message: String,
}

impl Error {
    /// Builds an error carrying `message`.
    pub fn new(message: &str) -> (e: Error)
        ensures
            e.message@ == message@,
    {
        Error { message: message.to_owned() }
    }
}

/// Events that are sent to the service.
#[derive(Debug, PartialEq)]
pub enum ServiceEvent<T> {
    Continue,
    Pause,
    Stop,
    SessionConnect(Session),
    SessionDisconnect(Session),
    SessionRemoteConnect(Session),
    SessionRemoteDisconnect(Session),
    SessionLogon(Session),
    SessionLogoff(Session),
    SessionLock(Session),
    SessionUnlock(Session),
    Custom(T),
}

/// Appends a session's numeric identifier and a closing parenthesis to the
/// opening label `prefix`, producing e.g. `"SessionLogon(7)"`.
fn session_label(prefix: &str, session: &Session) -> (r: String)
    ensures
        r@ == prefix@ + dec_rep(session.id as nat) + ")"@,
{
    let mut out = prefix.to_owned();
    push_dec(&mut out, session.id);
    out.append(")");
    proof {
        assert(out@ =~= prefix@ + dec_rep(session.id as nat) + ")"@);
    }
    out
}

impl<T> ServiceEvent<T> {
    /// The display form of an event: a fixed label per variant, with
    /// session-carrying variants including the session's numeric identifier.
    pub open spec fn spec_display(&self) -> Seq<char> {
        match self {
            ServiceEvent::Continue => "Continue"@,
            ServiceEvent::Pause => "Pause"@,
            ServiceEvent::Stop => "Stop"@,
            ServiceEvent::SessionConnect(s) => "SessionConnect("@ + dec_rep(s.id as nat) + ")"@,
            ServiceEvent::SessionDisconnect(s) => "SessionDisconnect("@ + dec_rep(s.id as nat)
                + ")"@,
            ServiceEvent::SessionRemoteConnect(s) => "SessionRemoteConnect("@ + dec_rep(
                s.id as nat,
            ) + ")"@,
            ServiceEvent::SessionRemoteDisconnect(s) => "SessionRemoteDisconnect("@ + dec_rep(
                s.id as nat,
            ) + ")"@,
            ServiceEvent::SessionLogon(s) => "SessionLogon("@ + dec_rep(s.id as nat) + ")"@,
            ServiceEvent::SessionLogoff(s) => "SessionLogoff("@ + dec_rep(s.id as nat) + ")"@,
            ServiceEvent::SessionLock(s) => "SessionLock("@ + dec_rep(s.id as nat) + ")"@,
            ServiceEvent::SessionUnlock(s) => "SessionUnlock("@ + dec_rep(s.id as nat) + ")"@,
            ServiceEvent::Custom(_) => "Custom"@,
        }
    }

    /// Renders the event's display form.
    pub fn display(&self) -> (r: String)
        ensures
            r@ == self.spec_display(),
    {
        match self {
            ServiceEvent::Continue => "Continue".to_owned(),
            ServiceEvent::Pause => "Pause".to_owned(),
            ServiceEvent::Stop => "Stop".to_owned(),
            ServiceEvent::SessionConnect(s) => session_label("SessionConnect(", s),
            ServiceEvent::SessionDisconnect(s) => session_label("SessionDisconnect(", s),
            ServiceEvent::SessionRemoteConnect(s) => session_label("SessionRemoteConnect(", s),
            ServiceEvent::SessionRemoteDisconnect(s) => session_label(
                "SessionRemoteDisconnect(",
                s,
            ),
            ServiceEvent::SessionLogon(s) => session_label("SessionLogon(", s),
            ServiceEvent::SessionLogoff(s) => session_label("SessionLogoff(", s),
            ServiceEvent::SessionLock(s) => session_label("SessionLock(", s),
            ServiceEvent::SessionUnlock(s) => session_label("SessionUnlock(", s),
            ServiceEvent::Custom(_) => "Custom".to_owned(),
        }
    }
}

} // verus!

//! Interactive logon sessions as the operating system reports them.

use vstd::prelude::*;
use crate::text::{dec_rep, dec_string};

verus! {

/// An immutable identifier for an interactive logon session, as delivered
/// with a session-change notification. Wraps the native unsigned identifier.
#[derive(Clone, Copy, Debug, PartialEq, Eq, Structural)]
pub struct Session {
    pub id: u32,
}

impl Session {
    /// Wraps a native session identifier.
    pub fn new(id: u32) -> (s: Session)
        ensures
            s.id == id,
    {
        Session { id }
    }

    /// The session's display form: its numeric identifier in decimal.
    pub fn display(&self) -> (s: String)
        ensures
            s@ == dec_rep(self.id as nat),
    {
        dec_string(self.id)
    }
}

} // verus!

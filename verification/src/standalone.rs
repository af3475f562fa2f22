//! Standalone mode: running the service-main function as an ordinary
//! foreground process, with no control manager involved.

use vstd::prelude::*;
use crate::channel::EventQueue;

verus! {

/// Invokes the application's service-main function `service_main` directly
/// in the current process, with `standalone == true`: no native
/// registration, no status reporting, no handle management. The caller
/// wires its interrupt mechanism to push a `Stop` event onto `events`
/// before or while `service_main` runs; the function's own exit code is
/// returned unchanged.
pub fn run_standalone<T, F: FnOnce(EventQueue<T>, Vec<String>, bool) -> u32>(
    service_main: F,
    events: EventQueue<T>,
    args: Vec<String>,
) -> (exit: u32)
    requires
        call_requires(service_main, (events, args, true)),
    ensures
        call_ensures(service_main, (events, args, true), exit),
{
    service_main(events, args, true)
}

} // verus!

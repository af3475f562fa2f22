use ceviche::ServiceEvent;
use ceviche::bridge::{self, ControlRequest, ServiceState, CONTROL_CONTINUE, CONTROL_PAUSE,
    CONTROL_STOP};
use ceviche::channel::EventQueue;
use ceviche::controller::Controller;
use ceviche::standalone;

/// A service-main that drains the channel, counts `Continue` events, and
/// exits with the count as soon as it receives `Stop`.
fn counting_service_main(mut rx: EventQueue<u8>, _args: Vec<String>, _standalone: bool) -> u32 {
    let mut count: u32 = 0;
    loop {
        match rx.try_recv() {
            Some(ServiceEvent::Continue) => count += 1,
            Some(ServiceEvent::Stop) => break,
            Some(_) => {}
            None => break,
        }
    }
    count
}

/// A service-main that returns 42 as soon as it receives `Stop`.
fn stop_service_main(mut rx: EventQueue<u8>, _args: Vec<String>, _standalone: bool) -> u32 {
    loop {
        if let Some(ServiceEvent::Stop) = rx.try_recv() {
            break;
        }
    }
    42
}

#[test]
fn standalone_returns_the_exit_code_unchanged() {
    let mut events: EventQueue<u8> = EventQueue::new();
    // The runner's caller wires its interrupt signal to inject `Stop`.
    events.send(ServiceEvent::Stop);
    let exit = standalone::run_standalone(stop_service_main, events, Vec::new());
    assert_eq!(exit, 42);
}

/// A service-main that checks it was started standalone and exits with the
/// number of arguments it was given.
fn arg_count_main(_rx: EventQueue<u8>, args: Vec<String>, standalone: bool) -> u32 {
    assert!(standalone);
    args.len() as u32
}

#[test]
fn standalone_passes_the_arguments_through() {
    let events: EventQueue<u8> = EventQueue::new();
    let args = vec![String::from("a"), String::from("b")];
    let exit = standalone::run_standalone(arg_count_main, events, args);
    assert_eq!(exit, 2);
}

#[test]
fn end_to_end_bridge_run_counts_continues() {
    // Feed the raw control codes through the bridge's decode path…
    let mut events: EventQueue<u8> = EventQueue::new();
    let mut handle = bridge::StatusHandle::acquire();
    let requests = vec![
        ControlRequest { control: CONTROL_CONTINUE, event_type: 0, session_id: 0 },
        ControlRequest { control: CONTROL_CONTINUE, event_type: 0, session_id: 0 },
        ControlRequest { control: CONTROL_PAUSE, event_type: 0, session_id: 0 },
        ControlRequest { control: CONTROL_STOP, event_type: 0, session_id: 0 },
    ];
    bridge::dispatch_requests(&mut events, &mut handle, &requests);
    // …then run the registered service-main over the resulting stream.
    let controller = Controller::new("foobar", "FooBar Service", "This is the FooBar service");
    let exit = controller.register(counting_service_main, events, Vec::new(), &mut handle);
    assert_eq!(exit, 2);
    assert!(!handle.is_open());
    let reports = handle.reports();
    assert_eq!(reports.len(), 3);
    assert_eq!(reports[0].state, ServiceState::StopPending);
    assert_eq!(reports[1].state, ServiceState::StartPending);
    assert_eq!(reports[2].state, ServiceState::Stopped);
    assert_eq!(reports[2].exit_code, 2);
}

/// A service-main that ignores its channel and exits with a fixed code.
fn fixed_exit_main(_rx: EventQueue<u8>, _args: Vec<String>, _standalone: bool) -> u32 {
    7
}

#[test]
fn run_service_forwards_the_exit_code_verbatim() {
    let events: EventQueue<u8> = EventQueue::new();
    let mut handle = bridge::StatusHandle::acquire();
    let exit = bridge::run_service(fixed_exit_main, events, Vec::new(), &mut handle);
    assert_eq!(exit, 7);
    assert!(!handle.is_open());
    let reports = handle.reports();
    assert_eq!(reports.len(), 2);
    assert_eq!(reports[0].state, ServiceState::StartPending);
    assert_eq!(reports[1].state, ServiceState::Stopped);
    assert_eq!(reports[1].exit_code, 7);
}

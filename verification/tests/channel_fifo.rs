use ceviche::ServiceEvent;
use ceviche::channel::EventQueue;
use ceviche::session::Session;

#[test]
fn fifo_order_is_preserved() {
    let mut queue: EventQueue<u8> = EventQueue::new();
    queue.send(ServiceEvent::Continue);
    queue.send(ServiceEvent::Pause);
    queue.send(ServiceEvent::Stop);
    assert_eq!(queue.recv(), ServiceEvent::Continue);
    assert_eq!(queue.recv(), ServiceEvent::Pause);
    assert_eq!(queue.recv(), ServiceEvent::Stop);
    assert!(queue.is_empty());
}

#[test]
fn try_recv_on_empty_queue_returns_none() {
    let mut queue: EventQueue<u8> = EventQueue::new();
    assert_eq!(queue.try_recv(), None);
    queue.send(ServiceEvent::SessionLogon(Session::new(1)));
    assert_eq!(queue.try_recv(), Some(ServiceEvent::SessionLogon(Session::new(1))));
    assert_eq!(queue.try_recv(), None);
}

#[test]
fn no_event_is_lost_or_duplicated() {
    let mut queue: EventQueue<u32> = EventQueue::new();
    for i in 0..100 {
        queue.send(ServiceEvent::Custom(i));
    }
    assert_eq!(queue.len(), 100);
    for i in 0..100 {
        assert_eq!(queue.recv(), ServiceEvent::Custom(i));
    }
    assert!(queue.is_empty());
}

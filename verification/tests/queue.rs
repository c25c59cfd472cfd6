use lapin_futures::command::{Command, Heartbeat, Open};
use lapin_futures::queue::CommandQueue;

#[test]
fn delivery_is_fifo() {
    let mut queue = CommandQueue::new(16);
    assert!(queue.offer(Command::Open(Open::with_ticket(1))).is_ok());
    assert!(queue.offer(Command::Heartbeat(Heartbeat::new())).is_ok());
    assert!(queue.offer(Command::Open(Open::with_ticket(2))).is_ok());

    assert_eq!(queue.dequeue(), Some(Command::Open(Open::with_ticket(1))));
    assert_eq!(queue.dequeue(), Some(Command::Heartbeat(Heartbeat::new())));
    assert_eq!(queue.dequeue(), Some(Command::Open(Open::with_ticket(2))));
    assert_eq!(queue.dequeue(), None);
}

#[test]
fn full_queue_hands_command_back() {
    let mut queue = CommandQueue::new(2);
    assert!(queue.offer(Command::Open(Open::with_ticket(1))).is_ok());
    assert!(queue.offer(Command::Open(Open::with_ticket(2))).is_ok());
    assert!(queue.is_full());

    // The rejected command comes back rather than being dropped.
    let rejected = queue.offer(Command::Open(Open::with_ticket(3)));
    assert_eq!(rejected, Err(Command::Open(Open::with_ticket(3))));
    assert_eq!(queue.len(), 2);

    // Space frees, the retry succeeds, order is preserved.
    assert_eq!(queue.dequeue(), Some(Command::Open(Open::with_ticket(1))));
    assert!(queue.offer(Command::Open(Open::with_ticket(3))).is_ok());
    assert_eq!(queue.dequeue(), Some(Command::Open(Open::with_ticket(2))));
    assert_eq!(queue.dequeue(), Some(Command::Open(Open::with_ticket(3))));
}

#[test]
fn closed_queue_accepts_nothing() {
    let mut queue = CommandQueue::new(4);
    assert!(queue.offer(Command::Heartbeat(Heartbeat::new())).is_ok());
    assert!(!queue.is_closed());
    queue.close();
    assert!(queue.is_closed());
    assert!(queue.offer(Command::Heartbeat(Heartbeat::new())).is_err());

    // What was queued before the close still drains in order.
    assert_eq!(queue.dequeue(), Some(Command::Heartbeat(Heartbeat::new())));
    assert_eq!(queue.dequeue(), None);
}

#[test]
fn capacity_is_reported() {
    let queue = CommandQueue::new(1024);
    assert_eq!(queue.capacity(), 1024);
    assert_eq!(queue.len(), 0);
    assert!(!queue.is_full());
}

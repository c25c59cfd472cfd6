use lapin_futures::command::Command;
use lapin_futures::error::ErrorKind;
use lapin_futures::pulse::{Pulse, PulseStatus, TimerState};
use lapin_futures::queue::CommandQueue;

#[test]
fn test_pulse_sending_message_at_configured_interval() {
    let mut queue = CommandQueue::new(16);
    let duration: u64 = 60;
    let mut pulse = Pulse::new(0, duration);

    // Enqueue sending task
    assert!(matches!(pulse.poll(0, &mut queue), Ok(PulseStatus::NotReady)));
    assert!(pulse.has_pending());
    assert_eq!(queue.len(), 0);

    // Pulse should have sent command to channel
    assert!(matches!(pulse.poll(0, &mut queue), Ok(PulseStatus::NotReady)));
    assert_eq!(queue.len(), 1);

    // Should not enqueue task if called before interval duration
    assert!(matches!(pulse.poll(0, &mut queue), Ok(PulseStatus::NotReady)));
    assert!(!pulse.has_pending());
    assert_eq!(queue.len(), 1);

    // Advance by interval duration: enqueue sending task
    assert!(matches!(pulse.poll(duration, &mut queue), Ok(PulseStatus::NotReady)));
    assert!(pulse.has_pending());
    assert_eq!(queue.len(), 1);

    // Pulse should have sent command to channel
    assert!(matches!(pulse.poll(duration, &mut queue), Ok(PulseStatus::NotReady)));
    assert_eq!(queue.len(), 2);
    assert!(matches!(queue.dequeue(), Some(Command::Heartbeat(_))));
    assert!(matches!(queue.dequeue(), Some(Command::Heartbeat(_))));
}

#[test]
fn pulse_holds_one_attempt_under_backpressure() {
    let mut queue = CommandQueue::new(1);
    let mut pulse = Pulse::new(0, 60);

    // First tick stores the attempt; a manually queued command then fills
    // the queue before the attempt can complete.
    assert!(matches!(pulse.poll(0, &mut queue), Ok(PulseStatus::NotReady)));
    assert!(pulse.has_pending());
    let filler = lapin_futures::command::Heartbeat::new();
    assert!(queue.offer(Command::Heartbeat(filler)).is_ok());
    assert_eq!(queue.len(), 1);

    // While the queue is full, the single attempt is held, never a second.
    for _ in 0..5 {
        assert!(matches!(pulse.poll(30, &mut queue), Ok(PulseStatus::NotReady)));
        assert!(pulse.has_pending());
        assert_eq!(queue.len(), 1);
    }

    // As soon as space appears the attempt completes, and the next
    // interval's attempt is not skipped: the tick due at 60 stores it.
    assert!(queue.dequeue().is_some());
    assert!(matches!(pulse.poll(60, &mut queue), Ok(PulseStatus::NotReady)));
    assert_eq!(queue.len(), 1);
    assert!(pulse.has_pending());

    // That next attempt lands once there is room again.
    assert!(queue.dequeue().is_some());
    assert!(matches!(pulse.poll(61, &mut queue), Ok(PulseStatus::NotReady)));
    assert_eq!(queue.len(), 1);
    assert!(!pulse.has_pending());
}

#[test]
fn pulse_no_attempt_before_deadline() {
    let mut queue = CommandQueue::new(16);
    let mut pulse = Pulse::new(100, 60);

    // Created at instant 100: nothing fires before then.
    assert!(matches!(pulse.poll(99, &mut queue), Ok(PulseStatus::NotReady)));
    assert!(!pulse.has_pending());
    assert_eq!(queue.len(), 0);

    // The first attempt is immediate at creation time.
    assert!(matches!(pulse.poll(100, &mut queue), Ok(PulseStatus::NotReady)));
    assert!(pulse.has_pending());
}

#[test]
fn pulse_timer_torn_down_is_fatal() {
    let mut queue = CommandQueue::new(16);
    let mut pulse = Pulse::new(0, 60);
    pulse.timer.state = TimerState::Dropped;

    let r = pulse.poll(0, &mut queue);
    match r {
        Err(e) => {
            assert_eq!(e.kind(), ErrorKind::TimerDropped);
            assert_eq!(e.message(), "the timer used for the heartbeat has been dropped");
        }
        Ok(_) => panic!("a torn-down timer must be fatal"),
    }
}

#[test]
fn pulse_swallows_dead_consumer() {
    let mut queue = CommandQueue::new(16);
    let mut pulse = Pulse::new(0, 60);

    assert!(matches!(pulse.poll(0, &mut queue), Ok(PulseStatus::NotReady)));
    assert!(pulse.has_pending());
    queue.close();

    // The attempt is swallowed and the timer keeps being polled.
    assert!(matches!(pulse.poll(0, &mut queue), Ok(PulseStatus::NotReady)));
    assert_eq!(queue.len(), 0);
    assert!(!pulse.has_pending());
    assert!(matches!(pulse.poll(60, &mut queue), Ok(PulseStatus::NotReady)));
    assert!(pulse.has_pending());
}

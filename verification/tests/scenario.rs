use lapin_futures::command::{Command, Heartbeat};
use lapin_futures::pulse::{Pulse, PulseStatus};
use lapin_futures::queue::CommandQueue;

fn count_heartbeats(queue: &mut CommandQueue) -> usize {
    let mut n: usize = 0;
    while let Some(command) = queue.dequeue() {
        match command {
            Command::Heartbeat(_) => n += 1,
            Command::Open(_) => panic!("only heartbeats were enqueued"),
        }
    }
    n
}

#[test]
fn one_heartbeat_per_tick_no_loss_no_duplicate() {
    // Interval 60, queue capacity 16, no drains in between.
    let mut queue = CommandQueue::new(16);
    let mut pulse = Pulse::new(0, 60);

    // One heartbeat enqueued manually at t = 0: queue at 1/16.
    assert!(queue.offer(Command::Heartbeat(Heartbeat::new())).is_ok());
    assert_eq!(queue.len(), 1);

    // Advance the pulse at t = 0 until quiet: its immediate first tick
    // lands a second heartbeat, queue at 2/16.
    assert!(matches!(pulse.poll(0, &mut queue), Ok(PulseStatus::NotReady)));
    assert!(matches!(pulse.poll(0, &mut queue), Ok(PulseStatus::NotReady)));
    assert!(matches!(pulse.poll(0, &mut queue), Ok(PulseStatus::NotReady)));
    assert_eq!(queue.len(), 2);

    // Advance time by one interval: a third heartbeat, queue at 3/16.
    assert!(matches!(pulse.poll(60, &mut queue), Ok(PulseStatus::NotReady)));
    assert!(matches!(pulse.poll(60, &mut queue), Ok(PulseStatus::NotReady)));
    assert!(matches!(pulse.poll(60, &mut queue), Ok(PulseStatus::NotReady)));
    assert_eq!(queue.len(), 3);

    // No heartbeat lost, none duplicated beyond one per tick.
    assert_eq!(count_heartbeats(&mut queue), 3);
}

//! The heartbeat pulse: a periodic scheduler that, once per interval,
//! attempts to enqueue one heartbeat command, honoring backpressure.
//!
//! The pulse holds at most one outstanding enqueue attempt at a time. On a
//! turn it first finishes that attempt if one is pending — keeping it and
//! doing nothing else while the queue is full — and only then polls the
//! interval timer; a tick stores a fresh heartbeat as the next attempt.
//! A torn-down timer source is fatal (`TimerDropped`); a consumer that
//! went away is swallowed, so a dead queue never stops the timer from
//! being polled.

use vstd::prelude::*;

use crate::command::{Command, Heartbeat};
use crate::error::{Error, ErrorKind};
use crate::queue::CommandQueue;

verus! {

/// The condition of an interval timer's source.
#[derive(Debug, Clone, Copy, PartialEq, Eq, Structural)]
pub enum TimerState {
    /// The timer ticks at `next_deadline` and every `period` after it.
    Live,
    /// The tick stream has ended.
    Exhausted,
    /// The timer source was torn down.
    Dropped,
}

/// An interval timer over simulated time: it fires at `next_deadline` and
/// then every `period` time units, the first tick immediate at creation
/// time.
#[derive(Debug, Clone, Copy, PartialEq, Eq, Structural)]
pub struct IntervalTimer {
    /// The fixed interval between ticks.
    pub period: u64,
    /// The next instant at which the timer fires.
    pub next_deadline: u64,
    /// The condition of the timer's source.
    pub state: TimerState,
}

/// What one poll of the timer reports.
#[derive(Debug, Clone, Copy, PartialEq, Eq, Structural)]
pub enum TimerPoll {
    /// The deadline has not arrived.
    NotReady,
    /// The deadline arrived; the timer advanced by one period.
    Tick,
    /// The tick stream has ended.
    Exhausted,
    /// The timer source was torn down.
    Failed,
}

/// A live timer fires when the current instant has reached its deadline.
pub open spec fn timer_fires(t: IntervalTimer, now: u64) -> bool {
    t.state is Live && now >= t.next_deadline
}

/// The timer after a tick: the deadline moves one period forward; if that
/// would overflow the clock, the tick stream ends instead.
pub open spec fn spec_timer_advance(t: IntervalTimer) -> IntervalTimer {
    if t.next_deadline <= u64::MAX - t.period {
        IntervalTimer { next_deadline: (t.next_deadline + t.period) as u64, ..t }
    } else {
        IntervalTimer { state: TimerState::Exhausted, ..t }
    }
}

/// Exactly one tick per period: after a tick fired at `now`, no instant
/// before the new deadline fires again, and the new deadline is exactly
/// one period past the old one — so advancing time by less than one
/// period never yields an extra tick.
pub proof fn lemma_one_tick_per_period(t: IntervalTimer, now: u64, later: u64)
    requires
        timer_fires(t, now),
        later < t.next_deadline + t.period,
    ensures
        !timer_fires(spec_timer_advance(t), later),
        t.next_deadline <= u64::MAX - t.period ==> spec_timer_advance(t).next_deadline
            == t.next_deadline + t.period,
{
}

impl IntervalTimer {
    /// A live timer whose first tick is immediate at `now` and which then
    /// ticks every `period`.
    pub fn new(now: u64, period: u64) -> (t: IntervalTimer)
        requires
            period >= 1,
        ensures
            t == (IntervalTimer { period, next_deadline: now, state: TimerState::Live }),
    {
        IntervalTimer { period, next_deadline: now, state: TimerState::Live }
    }

    /// Poll the timer at instant `now`.
    pub fn poll(&mut self, now: u64) -> (r: TimerPoll)
        ensures
            old(self).state is Dropped ==> r == TimerPoll::Failed && *final(self) == *old(self),
            old(self).state is Exhausted ==> r == TimerPoll::Exhausted && *final(self) == *old(
                self,
            ),
            timer_fires(*old(self), now) ==> r == TimerPoll::Tick && *final(self)
                == spec_timer_advance(*old(self)),
            old(self).state is Live && now < old(self).next_deadline ==> r == TimerPoll::NotReady
                && *final(self) == *old(self),
    {
        match self.state {
            TimerState::Dropped => TimerPoll::Failed,
            TimerState::Exhausted => TimerPoll::Exhausted,
            TimerState::Live => {
                if now >= self.next_deadline {
                    if self.next_deadline <= u64::MAX - self.period {
                        self.next_deadline = self.next_deadline + self.period;
                    } else {
                        self.state = TimerState::Exhausted;
                    }
                    TimerPoll::Tick
                } else {
                    TimerPoll::NotReady
                }
            },
        }
    }
}

/// What one poll of the pulse reports.
#[derive(Debug, Clone, Copy, PartialEq, Eq, Structural)]
pub enum PulseStatus {
    /// Nothing further to do this turn.
    NotReady,
    /// The timer's tick stream has ended; the owning task treats this as a
    /// logic error, since an interval timer never ends on its own.
    Completed,
}

/// The heartbeat pulse: an interval timer plus the in-flight enqueue
/// attempt, of which there is at most one.
#[derive(Debug, Clone, Copy, PartialEq, Eq, Structural)]
pub struct Pulse {
    /// The interval timer driving the heartbeats.
    pub timer: IntervalTimer,
    /// The heartbeat whose enqueue is still outstanding, if any.
    pub pending: Option<Heartbeat>,
}

/// One scheduling turn of the pulse at instant `now`, against queue
/// contents `q` with capacity `cap` (`closed` when the consumer is gone):
/// the pulse after the turn, the queue contents after it, and what the
/// turn reports.
///
/// A pending attempt against a full queue is held — the queue and the
/// timer are left untouched, so no tick is lost. Otherwise the attempt
/// (if any) completes — enqueued, or swallowed when the consumer is gone —
/// and the timer is polled the same turn: a tick stores a fresh heartbeat
/// as the next attempt.
pub open spec fn spec_pulse_step(p: Pulse, now: u64, q: Seq<Command>, cap: nat, closed: bool) -> (
    Pulse,
    Seq<Command>,
    Result<PulseStatus, ErrorKind>,
) {
    if p.pending is Some && !closed && q.len() >= cap {
        (p, q, Ok(PulseStatus::NotReady))
    } else {
        let q1 = if p.pending is Some && !closed {
            q.push(Command::Heartbeat(p.pending.unwrap()))
        } else {
            q
        };
        let t = p.timer;
        let settled = Pulse { timer: t, pending: None };
        match t.state {
            TimerState::Dropped => (settled, q1, Err(ErrorKind::TimerDropped)),
            TimerState::Exhausted => (settled, q1, Ok(PulseStatus::Completed)),
            TimerState::Live => if now >= t.next_deadline {
                (
                    Pulse { timer: spec_timer_advance(t), pending: Some(Heartbeat) },
                    q1,
                    Ok(PulseStatus::NotReady),
                )
            } else {
                (settled, q1, Ok(PulseStatus::NotReady))
            },
        }
    }
}

/// Backpressure holds the single attempt: with an attempt pending and the
/// queue full, a turn changes nothing — the attempt is kept (never a
/// second one) and the queue is untouched.
pub proof fn lemma_backpressure_holds(p: Pulse, now: u64, q: Seq<Command>, cap: nat)
    requires
        p.pending is Some,
        q.len() >= cap,
    ensures
        spec_pulse_step(p, now, q, cap, false) == (p, q, Ok::<PulseStatus, ErrorKind>(
            PulseStatus::NotReady,
        )),
{
}

/// As soon as space appears, the held attempt completes: the heartbeat is
/// appended, and the timer is still polled the same turn — a tick due now
/// stores the next attempt, so no interval's attempt is skipped.
pub proof fn lemma_backpressure_release(p: Pulse, now: u64, q: Seq<Command>, cap: nat)
    requires
        p.pending is Some,
        q.len() < cap,
        p.timer.state is Live,
    ensures
        spec_pulse_step(p, now, q, cap, false).1 == q.push(
            Command::Heartbeat(p.pending.unwrap()),
        ),
        timer_fires(p.timer, now) ==> spec_pulse_step(p, now, q, cap, false).0 == (Pulse {
            timer: spec_timer_advance(p.timer),
            pending: Some(Heartbeat),
        }),
        !timer_fires(p.timer, now) ==> spec_pulse_step(p, now, q, cap, false).0 == (Pulse {
            timer: p.timer,
            pending: None,
        }),
{
}

impl Pulse {
    /// The pulse as `new` creates it at instant `now`: a live timer whose
    /// first tick is immediate, and no attempt outstanding.
    pub open spec fn spec_initial(now: u64, period: u64) -> Pulse {
        Pulse {
            timer: IntervalTimer { period, next_deadline: now, state: TimerState::Live },
            pending: None,
        }
    }

    /// A pulse over a fresh interval timer: first heartbeat attempt
    /// immediate at `now`, then one per `period`; no attempt outstanding.
    pub fn new(now: u64, period: u64) -> (p: Pulse)
        requires
            period >= 1,
        ensures
            p == Pulse::spec_initial(now, period),
    {
        Pulse { timer: IntervalTimer::new(now, period), pending: None }
    }

    /// Whether an enqueue attempt is outstanding.
    pub fn has_pending(&self) -> (b: bool)
        ensures
            b == (self.pending is Some),
    {
        self.pending.is_some()
    }

    /// One scheduling turn at instant `now`, exactly as `spec_pulse_step`
    /// says. `Err` carries `TimerDropped`, the one fatal failure; a dead
    /// consumer is swallowed.
    pub fn poll(&mut self, now: u64, queue: &mut CommandQueue) -> (r: Result<PulseStatus, Error>)
        ensures
            final(queue).cap == old(queue).cap,
            final(queue).closed == old(queue).closed,
            ({
                let (p2, q2, outcome) = spec_pulse_step(
                    *old(self),
                    now,
                    old(queue).items@,
                    old(queue).cap as nat,
                    old(queue).closed,
                );
                &&& *final(self) == p2
                &&& final(queue).items@ == q2
                &&& match outcome {
                    Ok(status) => r matches Ok(s) && s == status,
                    Err(kind) => r matches Err(e) && e.kind == kind,
                }
            }),
    {
        if self.pending.is_some() {
            if !queue.is_closed() && queue.is_full() {
                return Ok(PulseStatus::NotReady);
            }
            let heartbeat = self.pending.take().unwrap();
            if !queue.is_closed() {
                let offered = queue.offer(Command::Heartbeat(heartbeat));
                assert(offered is Ok);
            }
        }
        match self.timer.poll(now) {
            TimerPoll::Failed => Err(Error { kind: ErrorKind::TimerDropped }),
            TimerPoll::Exhausted => Ok(PulseStatus::Completed),
            TimerPoll::Tick => {
                self.pending = Some(Heartbeat::new());
                Ok(PulseStatus::NotReady)
            },
            TimerPoll::NotReady => Ok(PulseStatus::NotReady),
        }
    }
}

} // verus!

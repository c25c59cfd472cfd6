//! The background task: the single owner of the connection state machine.
//!
//! On each scheduling turn it multiplexes four event sources in a fixed
//! priority order — the shutdown signal, the heartbeat pulse, the command
//! queue (at most one command per turn, so the transport and the shutdown
//! check keep getting their chance), and the transport's I/O — and
//! terminates when shutdown fires or the transport finishes.

use vstd::prelude::*;

use crate::command::{spec_command_step, Command};
use crate::connection::Connection;
use crate::error::{Error, ErrorKind};
use crate::pulse::{spec_pulse_step, Pulse, PulseStatus};
use crate::queue::CommandQueue;
use crate::HEARTBEAT_PERIOD_SECS;
use crate::QUEUE_CAPACITY;

verus! {

/// What a poll of the shutdown channel observed at the top of a turn.
#[derive(Debug, Clone, Copy, PartialEq, Eq, Structural)]
pub enum SignalPoll {
    /// No signal yet.
    NotReady,
    /// The handle sent the shutdown signal (or was dropped).
    Signaled,
    /// The channel errored: the sender was destroyed without signaling.
    SenderDropped,
}

/// What a poll of the transport's I/O reported this turn.
#[derive(Debug, Clone, Copy, PartialEq, Eq, Structural)]
pub enum TransportPoll {
    /// The socket has nothing ready.
    NotReady,
    /// The transport finished.
    Completed,
    /// The transport failed with the given I/O error code.
    Failed(u64),
}

/// What a turn of the background task reports.
#[derive(Debug, Clone, Copy, PartialEq, Eq, Structural)]
pub enum TaskPoll {
    /// The task suspends until an event source is ready again.
    NotReady,
    /// The task terminated cleanly.
    Ready,
}

/// The lifecycle state of the background task.
#[derive(Debug, Clone, Copy, PartialEq, Eq, Structural)]
pub enum TaskState {
    /// The task is alive and polling its event sources.
    Running,
    /// The task terminated cleanly: shutdown fired, or the transport
    /// finished.
    StoppedClean,
    /// The task terminated with an error.
    StoppedError,
}

/// The recorded outcome of one executed command, to be routed back to the
/// command's issuer.
#[derive(Debug, Clone, Copy, PartialEq, Eq, Structural)]
pub struct Completion {
    /// The issuer's ticket, if the issuer asked for one.
    pub ticket: Option<u64>,
    /// The request id the command recorded, if any.
    pub request_id: Option<u64>,
    /// The failure the command reported, if it failed.
    pub failure: Option<ErrorKind>,
}

/// The completion recorded for an executed command (`cmd` as it stands
/// after execution).
pub open spec fn spec_completion_of(cmd: Command, failure: Option<ErrorKind>) -> Completion {
    Completion { ticket: cmd.spec_ticket(), request_id: cmd.spec_request_id(), failure }
}

/// The capability used to request shutdown of the background task.
///
/// Exactly one handle exists per task, and stopping consumes it, so the
/// signal can be sent at most once — by ownership, not by a runtime check.
#[derive(Debug, PartialEq, Eq, Structural)]
pub struct BackgroundHandle;

/// The one-shot shutdown signal produced by stopping a handle; the driver
/// delivers it to the task as `SignalPoll::Signaled`.
#[derive(Debug, PartialEq, Eq, Structural)]
pub struct ShutdownSignal;

impl BackgroundHandle {
    /// Consume the handle and produce the shutdown signal.
    pub fn stop(self) -> (s: ShutdownSignal) {
        ShutdownSignal
    }
}

/// The background task.
#[derive(Debug)]
pub struct Background {
    /// The connection state machine, exclusively owned by the background
    /// task.
    pub connection: Connection,
    /// The heartbeat pulse.
    pub pulse: Pulse,
    /// The shutdown handle, until a caller takes it.
    pub handle: Option<BackgroundHandle>,
    /// The lifecycle state.
    pub state: TaskState,
    /// Outcomes of executed commands, oldest first, awaiting routing back
    /// to their issuers.
    pub completions: Vec<Completion>,
}

impl Background {
    /// A background task for an established connection, created at instant
    /// `now`, together with the command queue feeding it. The pulse's
    /// first heartbeat attempt is immediate; the handle is present until
    /// taken.
    pub fn new(connection: Connection, now: u64) -> (r: (Background, CommandQueue))
        requires
            connection.wf(),
        ensures
            r.0.connection == connection,
            r.0.pulse == Pulse::spec_initial(now, HEARTBEAT_PERIOD_SECS),
            r.0.handle is Some,
            r.0.state is Running,
            r.0.completions@ == Seq::<Completion>::empty(),
            r.1.items@ == Seq::<Command>::empty(),
            r.1.cap == QUEUE_CAPACITY,
            !r.1.closed,
    {
        let background = Background {
            connection,
            pulse: Pulse::new(now, HEARTBEAT_PERIOD_SECS),
            handle: Some(BackgroundHandle),
            state: TaskState::Running,
            completions: Vec::new(),
        };
        let queue = CommandQueue::new(QUEUE_CAPACITY);
        (background, queue)
    }

    /// Take the shutdown handle. Because there can be only one handle, a
    /// second take yields nothing.
    pub fn handle(&mut self) -> (h: Option<BackgroundHandle>)
        ensures
            h == old(self).handle,
            *final(self) == (Background { handle: None, ..*old(self) }),
    {
        self.handle.take()
    }

    /// Drain the recorded command outcomes, oldest first.
    pub fn take_completions(&mut self) -> (c: Vec<Completion>)
        ensures
            c@ == old(self).completions@,
            final(self).completions@ == Seq::<Completion>::empty(),
            final(self).connection == old(self).connection,
            final(self).pulse == old(self).pulse,
            final(self).handle == old(self).handle,
            final(self).state == old(self).state,
    {
        let mut drained: Vec<Completion> = Vec::new();
        core::mem::swap(&mut drained, &mut self.completions);
        drained
    }

    /// One scheduling turn, in the fixed priority order: shutdown first,
    /// then the pulse, then at most one queued command, then the
    /// transport's I/O.
    ///
    /// A shutdown signal terminates the task at once: nothing further is
    /// executed, queued commands are left behind unapplied. A torn-down
    /// timer or a failed transport terminates with that error. A failure
    /// of a single command is never fatal: it is recorded in
    /// `completions` for its issuer, and the task keeps running.
    pub fn poll(
        &mut self,
        shutdown: SignalPoll,
        now: u64,
        queue: &mut CommandQueue,
        transport: TransportPoll,
    ) -> (r: Result<TaskPoll, Error>)
        requires
            old(self).state is Running,
            old(self).connection.wf(),
            old(self).connection.next_request_id < u64::MAX,
            !old(queue).closed,
            !(old(self).pulse.timer.state is Exhausted),
        ensures
            final(self).connection.wf(),
            final(self).handle == old(self).handle,
            final(queue).cap == old(queue).cap,
            !final(queue).closed,
            r matches Ok(TaskPoll::NotReady) <==> final(self).state is Running,
            shutdown is Signaled ==> ({
                &&& r matches Ok(p) && p is Ready
                &&& *final(self) == (Background { state: TaskState::StoppedClean, ..*old(self) })
                &&& *final(queue) == *old(queue)
            }),
            shutdown is SenderDropped ==> ({
                &&& r matches Err(e) && e.kind == ErrorKind::HandleDropped
                &&& *final(self) == (Background { state: TaskState::StoppedError, ..*old(self) })
                &&& *final(queue) == *old(queue)
            }),
            shutdown is NotReady ==> ({
                let (p2, q2, pulse_outcome) = spec_pulse_step(
                    old(self).pulse,
                    now,
                    old(queue).items@,
                    old(queue).cap as nat,
                    false,
                );
                &&& final(self).pulse == p2
                &&& match pulse_outcome {
                    Err(kind) => {
                        &&& kind == ErrorKind::TimerDropped
                        &&& r matches Err(e) && e.kind == kind
                        &&& final(self).state is StoppedError
                        &&& final(queue).items@ == q2
                        &&& final(self).connection@ =~= old(self).connection@
                        &&& final(self).completions@ == old(self).completions@
                    },
                    Ok(_) => {
                        &&& if q2.len() > 0 {
                            let (cmd2, conn2, failure) = spec_command_step(
                                q2[0],
                                old(self).connection@,
                            );
                            &&& final(queue).items@ == q2.drop_first()
                            &&& final(self).connection@ =~= conn2
                            &&& final(self).completions@ == old(self).completions@.push(
                                spec_completion_of(cmd2, failure),
                            )
                        } else {
                            &&& final(queue).items@ == q2
                            &&& final(self).connection@ =~= old(self).connection@
                            &&& final(self).completions@ == old(self).completions@
                        }
                        &&& match transport {
                            TransportPoll::NotReady => r matches Ok(p) && p is NotReady
                                && final(self).state is Running,
                            TransportPoll::Completed => r matches Ok(p) && p is Ready
                                && final(self).state is StoppedClean,
                            TransportPoll::Failed(code) => r matches Err(e) && e.kind
                                == ErrorKind::Transport(code) && final(self).state
                                is StoppedError,
                        }
                    },
                }
            }),
    {
        match shutdown {
            SignalPoll::Signaled => {
                self.state = TaskState::StoppedClean;
                return Ok(TaskPoll::Ready);
            },
            SignalPoll::SenderDropped => {
                self.state = TaskState::StoppedError;
                return Err(Error { kind: ErrorKind::HandleDropped });
            },
            SignalPoll::NotReady => {},
        }
        match self.pulse.poll(now, queue) {
            Ok(PulseStatus::NotReady) => {},
            Ok(PulseStatus::Completed) => {
                // An interval timer's tick stream cannot end: the
                // precondition rules an exhausted timer out.
                proof {
                    assert(false);
                }
                self.state = TaskState::StoppedError;
                return Err(Error { kind: ErrorKind::TimerDropped });
            },
            Err(e) => {
                self.state = TaskState::StoppedError;
                return Err(e);
            },
        }
        match queue.dequeue() {
            Some(mut command) => {
                let execution = command.execute(&mut self.connection);
                let failure = match execution {
                    Ok(_) => None,
                    Err(e) => Some(e.kind()),
                };
                let completion = Completion {
                    ticket: command.ticket(),
                    request_id: command.request_id(),
                    failure,
                };
                self.completions.push(completion);
            },
            None => {},
        }
        match transport {
            TransportPoll::NotReady => Ok(TaskPoll::NotReady),
            TransportPoll::Completed => {
                self.state = TaskState::StoppedClean;
                Ok(TaskPoll::Ready)
            },
            TransportPoll::Failed(code) => {
                self.state = TaskState::StoppedError;
                Err(Error { kind: ErrorKind::Transport(code) })
            },
        }
    }
}

} // verus!

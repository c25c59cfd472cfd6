//! Commands: units of protocol work applied once to the connection.
//!
//! The command set is closed, so dispatch goes through a tagged variant
//! rather than a trait object. Each command is created by a caller, moved
//! into the command queue, and executed exactly once by the background
//! task; `has_finished` lets a command report asynchronous completion
//! detected via connection state.

use vstd::prelude::*;

use crate::connection::{Connection, ConnectionModel, Frame};
use crate::error::{Error, ErrorKind};

verus! {

/// Command that opens a channel against the server.
///
/// `ticket` identifies the issuer so that the outcome can be routed back;
/// `request_id` is set once the channel-open method has been issued.
#[derive(Debug, Clone, Copy, PartialEq, Eq, Structural)]
pub struct Open {
    /// The request identifier returned by the connection, once issued.
    pub request_id: Option<u64>,
    /// The issuer's completion ticket, if the issuer asked for one.
    pub ticket: Option<u64>,
}

/// Command that signals to the server that this peer is still alive.
#[derive(Debug, Clone, Copy, PartialEq, Eq, Structural)]
pub struct Heartbeat;

/// A unit of protocol work that the background task executes against the
/// connection.
#[derive(Debug, Clone, Copy, PartialEq, Eq, Structural)]
pub enum Command {
    /// Open a channel.
    Open(Open),
    /// Send a heartbeat frame.
    Heartbeat(Heartbeat),
}

/// What executing an `Open` command does: allocate a channel id (failing
/// with `ChannelLimitReached` when none is left), then issue the
/// channel-open method (failing with `ProtocolError` while the engine is
/// faulted; the allocated id is not returned in that case).
pub open spec fn spec_open_step(cmd: Open, conn: ConnectionModel) -> (Open, ConnectionModel, Option<ErrorKind>) {
    if !conn.can_allocate_channel() {
        (cmd, conn, Some(ErrorKind::ChannelLimitReached))
    } else {
        let allocated = ConnectionModel { next_channel_id: conn.next_channel_id + 1, ..conn };
        match conn.protocol_fault {
            Some(code) => (cmd, allocated, Some(ErrorKind::ProtocolError(code))),
            None => (
                Open { request_id: Some(conn.next_request_id as u64), ..cmd },
                ConnectionModel {
                    next_request_id: conn.next_request_id + 1,
                    frame_queue: conn.frame_queue.push(Frame::ChannelOpen {
                        channel_id: conn.next_channel_id as u16,
                        request_id: conn.next_request_id as u64,
                    }),
                    ..allocated
                },
                None,
            ),
        }
    }
}

/// What executing any command does to the connection, which command value
/// remains, and the failure it reports, if any. A heartbeat appends one
/// heartbeat frame and cannot fail.
pub open spec fn spec_command_step(cmd: Command, conn: ConnectionModel) -> (Command, ConnectionModel, Option<ErrorKind>) {
    match cmd {
        Command::Open(o) => {
            let (o2, conn2, failure) = spec_open_step(o, conn);
            (Command::Open(o2), conn2, failure)
        },
        Command::Heartbeat(_) => (
            cmd,
            ConnectionModel { frame_queue: conn.frame_queue.push(Frame::Heartbeat(0)), ..conn },
            None,
        ),
    }
}

impl Open {
    /// A channel-open command that no issuer waits for.
    pub fn new() -> (c: Open)
        ensures
            c == (Open { request_id: None, ticket: None }),
    {
        Open { request_id: None, ticket: None }
    }

    /// A channel-open command whose outcome is routed back under `ticket`.
    pub fn with_ticket(ticket: u64) -> (c: Open)
        ensures
            c == (Open { request_id: None, ticket: Some(ticket) }),
    {
        Open { request_id: None, ticket: Some(ticket) }
    }

    /// Request a channel id and issue the channel-open method on it.
    pub fn execute(&mut self, conn: &mut Connection) -> (r: Result<(), Error>)
        requires
            old(conn).wf(),
            old(conn).next_request_id < u64::MAX,
        ensures
            final(conn).wf(),
            ({
                let (cmd2, conn2, failure) = spec_open_step(*old(self), old(conn)@);
                &&& *final(self) == cmd2
                &&& final(conn)@ =~= conn2
                &&& match failure {
                    Some(kind) => r matches Err(e) && e.kind == kind,
                    None => r is Ok,
                }
            }),
    {
        let channel_id = match conn.create_channel() {
            Some(channel_id) => channel_id,
            None => {
                return Err(Error { kind: ErrorKind::ChannelLimitReached });
            },
        };
        match conn.channel_open(channel_id) {
            Ok(request_id) => {
                self.request_id = Some(request_id);
                Ok(())
            },
            Err(code) => Err(Error { kind: ErrorKind::ProtocolError(code) }),
        }
    }

    /// Whether the channel-open request has resolved; `false` while the
    /// command was not issued yet or the connection does not know the
    /// request.
    pub fn has_finished(&self, conn: &Connection) -> (r: bool)
        ensures
            r == (self.request_id matches Some(id)
                && id < conn.next_request_id
                && conn.finished_requests@.contains(id)),
    {
        match self.request_id {
            None => false,
            Some(request_id) => match conn.is_finished(request_id) {
                Some(finished) => finished,
                None => false,
            },
        }
    }
}

impl Heartbeat {
    /// A heartbeat command.
    pub fn new() -> (c: Heartbeat)
        ensures
            c == Heartbeat,
    {
        Heartbeat
    }

    /// Append one heartbeat frame to the connection's outgoing queue;
    /// cannot fail.
    pub fn execute(&mut self, conn: &mut Connection) -> (r: Result<(), Error>)
        ensures
            r is Ok,
            *final(self) == *old(self),
            final(conn)@ =~= (ConnectionModel {
                frame_queue: old(conn)@.frame_queue.push(Frame::Heartbeat(0)),
                ..old(conn)@
            }),
    {
        conn.frame_queue.push(Frame::Heartbeat(0));
        Ok(())
    }

    /// A heartbeat is complete as soon as it was executed.
    pub fn has_finished(&self, _conn: &Connection) -> (r: bool)
        ensures
            r,
    {
        true
    }
}

impl Command {
    /// Apply this command to the connection, exactly as `spec_command_step`
    /// says.
    pub fn execute(&mut self, conn: &mut Connection) -> (r: Result<(), Error>)
        requires
            old(conn).wf(),
            old(conn).next_request_id < u64::MAX,
        ensures
            final(conn).wf(),
            ({
                let (cmd2, conn2, failure) = spec_command_step(*old(self), old(conn)@);
                &&& *final(self) == cmd2
                &&& final(conn)@ =~= conn2
                &&& match failure {
                    Some(kind) => r matches Err(e) && e.kind == kind,
                    None => r is Ok,
                }
            }),
    {
        match *self {
            Command::Open(mut o) => {
                let r = o.execute(conn);
                *self = Command::Open(o);
                r
            },
            Command::Heartbeat(mut h) => {
                let r = h.execute(conn);
                *self = Command::Heartbeat(h);
                r
            },
        }
    }

    /// Whether this command's work has resolved on the connection.
    pub fn has_finished(&self, conn: &Connection) -> (r: bool)
        ensures
            self matches Command::Heartbeat(_) ==> r,
            self matches Command::Open(o) ==> r == (o.request_id matches Some(id)
                && id < conn.next_request_id
                && conn.finished_requests@.contains(id)),
    {
        match self {
            Command::Open(o) => o.has_finished(conn),
            Command::Heartbeat(h) => h.has_finished(conn),
        }
    }

    /// The issuer's ticket carried by this command, if any.
    pub fn ticket(&self) -> (t: Option<u64>)
        ensures
            t == self.spec_ticket(),
    {
        match self {
            Command::Open(o) => o.ticket,
            Command::Heartbeat(_) => None,
        }
    }

    /// The request id recorded on this command, once issued.
    pub fn request_id(&self) -> (id: Option<u64>)
        ensures
            id == self.spec_request_id(),
    {
        match self {
            Command::Open(o) => o.request_id,
            Command::Heartbeat(_) => None,
        }
    }

    /// The issuer's ticket carried by a command.
    pub open spec fn spec_ticket(self) -> Option<u64> {
        match self {
            Command::Open(o) => o.ticket,
            Command::Heartbeat(_) => None,
        }
    }

    /// The request id recorded on a command.
    pub open spec fn spec_request_id(self) -> Option<u64> {
        match self {
            Command::Open(o) => o.request_id,
            Command::Heartbeat(_) => None,
        }
    }
}

} // verus!

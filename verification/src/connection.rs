//! A model of the external protocol connection, at its interface boundary.
//!
//! The real connection state machine (channel allocation, method encoding,
//! frame queueing) lives outside this crate; commands only ever read and
//! change the parts modelled here: which channel ids are still free, which
//! request ids were issued and which of them resolved, and the outgoing
//! frame queue.

use vstd::prelude::*;

verus! {

/// A frame waiting in the connection's outgoing queue.
#[derive(Debug, Clone, Copy, PartialEq, Eq, Structural)]
pub enum Frame {
    /// A heartbeat frame on the given channel (always channel 0).
    Heartbeat(u16),
    /// The channel-open method frame for a channel, tagged with the
    /// request id it answers.
    ChannelOpen { channel_id: u16, request_id: u64 },
}

/// The configuration snapshot negotiated at handshake.
#[derive(Debug, Clone, Copy, PartialEq, Eq, Structural)]
pub struct Configuration {
    /// The maximum size of a frame.
    pub frame_max: u32,
    /// The maximum number of channels that may be open at once.
    pub channel_max: u16,
    /// The heartbeat interval, in seconds.
    pub heartbeat: u16,
}

/// The connection state machine, as the background task sees it.
///
/// Channel ids are handed out in increasing order starting at 1; ids
/// `1 ..= channel_max` exist, so `next_channel_id > channel_max` means the
/// limit is reached. `protocol_fault` models a failure of the external
/// protocol engine's encode/negotiation step: while it is set, issuing a
/// method fails with that code.
#[derive(Debug)]
pub struct Connection {
    /// The configuration snapshot.
    pub configuration: Configuration,
    /// The next channel id to hand out.
    pub next_channel_id: u32,
    /// The next request id to issue.
    pub next_request_id: u64,
    /// The issued request ids whose reply has arrived.
    pub finished_requests: Vec<u64>,
    /// The outgoing frame queue.
    pub frame_queue: Vec<Frame>,
    /// A pending failure of the external protocol engine, if any.
    pub protocol_fault: Option<u64>,
}

/// The mathematical view of a `Connection`.
#[verifier::ext_equal]
pub struct ConnectionModel {
    pub configuration: Configuration,
    pub next_channel_id: int,
    pub next_request_id: int,
    pub finished_requests: Seq<u64>,
    pub frame_queue: Seq<Frame>,
    pub protocol_fault: Option<u64>,
}

impl View for Connection {
    type V = ConnectionModel;

    open spec fn view(&self) -> ConnectionModel {
        ConnectionModel {
            configuration: self.configuration,
            next_channel_id: self.next_channel_id as int,
            next_request_id: self.next_request_id as int,
            finished_requests: self.finished_requests@,
            frame_queue: self.frame_queue@,
            protocol_fault: self.protocol_fault,
        }
    }
}

impl ConnectionModel {
    /// A channel id is still available.
    pub open spec fn can_allocate_channel(self) -> bool {
        self.next_channel_id <= self.configuration.channel_max
    }
}

impl Connection {
    /// Channel ids stay within the configured limit.
    pub open spec fn wf(self) -> bool {
        1 <= self.next_channel_id <= self.configuration.channel_max + 1
    }

    /// A fresh connection with the given configuration: no channel open,
    /// no request issued, no frame queued.
    pub fn new(configuration: Configuration) -> (c: Connection)
        ensures
            c.wf(),
            c.configuration == configuration,
            c.next_channel_id == 1,
            c.next_request_id == 0,
            c.finished_requests@ == Seq::<u64>::empty(),
            c.frame_queue@ == Seq::<Frame>::empty(),
            c.protocol_fault is None,
    {
        Connection {
            configuration,
            next_channel_id: 1,
            next_request_id: 0,
            finished_requests: Vec::new(),
            frame_queue: Vec::new(),
            protocol_fault: None,
        }
    }

    /// Hand out the next free channel id, or report that the limit is
    /// reached.
    pub fn create_channel(&mut self) -> (r: Option<u16>)
        requires
            old(self).wf(),
        ensures
            final(self).wf(),
            old(self)@.can_allocate_channel() ==> r == Some(old(self).next_channel_id as u16)
                && final(self)@ =~= (ConnectionModel {
                    next_channel_id: old(self)@.next_channel_id + 1,
                    ..old(self)@
                }),
            !old(self)@.can_allocate_channel() ==> r is None && *final(self) == *old(self),
    {
        if self.next_channel_id <= self.configuration.channel_max as u32 {
            let id: u16 = self.next_channel_id as u16;
            self.next_channel_id = self.next_channel_id + 1;
            Some(id)
        } else {
            None
        }
    }

    /// Issue the channel-open method on the given channel: on success the
    /// method frame is queued and the fresh request id returned; while the
    /// protocol engine is faulted, the fault's code is returned instead.
    pub fn channel_open(&mut self, channel_id: u16) -> (r: Result<u64, u64>)
        requires
            old(self).wf(),
            old(self).next_request_id < u64::MAX,
        ensures
            final(self).wf(),
            old(self).protocol_fault matches Some(code) ==> r == Err::<u64, u64>(code)
                && *final(self) == *old(self),
            old(self).protocol_fault is None ==> r == Ok::<u64, u64>(old(self).next_request_id)
                && final(self)@ =~= (ConnectionModel {
                    next_request_id: old(self)@.next_request_id + 1,
                    frame_queue: old(self)@.frame_queue.push(Frame::ChannelOpen {
                        channel_id,
                        request_id: old(self).next_request_id,
                    }),
                    ..old(self)@
                }),
    {
        match self.protocol_fault {
            Some(code) => Err(code),
            None => {
                let request_id: u64 = self.next_request_id;
                self.frame_queue.push(Frame::ChannelOpen { channel_id, request_id });
                self.next_request_id = self.next_request_id + 1;
                Ok(request_id)
            }
        }
    }

    /// Whether the given request has resolved: `None` for a request that
    /// was never issued, otherwise whether its reply has arrived.
    pub fn is_finished(&self, request_id: u64) -> (r: Option<bool>)
        ensures
            request_id >= self.next_request_id ==> r is None,
            request_id < self.next_request_id ==> r == Some(
                self.finished_requests@.contains(request_id),
            ),
    {
        if request_id >= self.next_request_id {
            None
        } else {
            Some(contains_id(&self.finished_requests, request_id))
        }
    }

    /// Record that the reply for the given request has arrived; models the
    /// external event of a server reply.
    pub fn mark_finished(&mut self, request_id: u64)
        ensures
            final(self)@ =~= (ConnectionModel {
                finished_requests: old(self)@.finished_requests.push(request_id),
                ..old(self)@
            }),
    {
        self.finished_requests.push(request_id);
    }
}

/// Whether `ids` holds `wanted`.
fn contains_id(ids: &Vec<u64>, wanted: u64) -> (r: bool)
    ensures
        r == ids@.contains(wanted),
{
    let mut i: usize = 0;
    while i < ids.len()
        invariant
            i <= ids@.len(),
            forall|j: int| 0 <= j < i ==> ids@[j] != wanted,
        decreases ids@.len() - i,
    {
        if ids[i] == wanted {
            assert(ids@.contains(wanted));
            return true;
        }
        i = i + 1;
    }
    assert(!ids@.contains(wanted));
    false
}

} // verus!

//! The command queue: a bounded FIFO carrying commands from any number of
//! producers to the single background task.
//!
//! Insertion order is preserved across all producers, and a full queue
//! pushes back on the producer (`offer` hands the command back) rather
//! than dropping. `closed` models the consumer side having gone away.

use vstd::prelude::*;

use crate::command::Command;

verus! {

/// A bounded FIFO of commands.
#[derive(Debug)]
pub struct CommandQueue {
    /// The queued commands, oldest first.
    pub items: Vec<Command>,
    /// The capacity: `items` never grows beyond it.
    pub cap: usize,
    /// Whether the consumer side has gone away.
    pub closed: bool,
}

/// One dequeue step on queue contents: the front element leaves, the rest
/// keep their order.
pub open spec fn spec_dequeue(s: Seq<Command>) -> (Seq<Command>, Option<Command>) {
    if s.len() == 0 {
        (s, None)
    } else {
        (s.drop_first(), Some(s.first()))
    }
}

/// The contents left after `k` dequeue steps on contents `s`.
pub open spec fn spec_remaining(s: Seq<Command>, k: int) -> Seq<Command>
    decreases k,
{
    if k <= 0 {
        s
    } else {
        spec_dequeue(spec_remaining(s, k - 1)).0
    }
}

/// The command handed out by the `k`-th dequeue step (counting from 0) on
/// contents `s`.
pub open spec fn spec_delivered(s: Seq<Command>, k: int) -> Option<Command> {
    spec_dequeue(spec_remaining(s, k)).1
}

/// Delivery is FIFO and deterministic: on contents `s`, the `k`-th dequeue
/// hands out exactly `s[k]`, and what remains is exactly the suffix of `s`
/// past `k` — so the consumer executes commands in the order the queue
/// delivered them, and the same contents always produce the same delivery
/// order.
pub proof fn lemma_fifo_delivery(s: Seq<Command>, k: int)
    requires
        0 <= k < s.len(),
    ensures
        spec_remaining(s, k) =~= s.subrange(k, s.len() as int),
        spec_delivered(s, k) == Some(s[k]),
    decreases k,
{
    if k == 0 {
        assert(spec_remaining(s, 0) =~= s.subrange(0, s.len() as int));
    } else {
        lemma_fifo_delivery(s, k - 1);
        assert(spec_remaining(s, k) =~= s.subrange(k, s.len() as int));
    }
}

impl CommandQueue {
    /// An empty, open queue with the given capacity.
    pub fn new(cap: usize) -> (q: CommandQueue)
        requires
            cap >= 1,
        ensures
            q.items@ == Seq::<Command>::empty(),
            q.cap == cap,
            !q.closed,
    {
        CommandQueue { items: Vec::new(), cap, closed: false }
    }

    /// How many commands are queued.
    pub fn len(&self) -> (n: usize)
        ensures
            n == self.items@.len(),
    {
        self.items.len()
    }

    /// The capacity the queue was created with.
    pub fn capacity(&self) -> (c: usize)
        ensures
            c == self.cap,
    {
        self.cap
    }

    /// Whether the queue is at capacity.
    pub fn is_full(&self) -> (b: bool)
        ensures
            b == (self.items@.len() >= self.cap),
    {
        self.items.len() >= self.cap
    }

    /// Whether the consumer side has gone away.
    pub fn is_closed(&self) -> (b: bool)
        ensures
            b == self.closed,
    {
        self.closed
    }

    /// Try to enqueue a command: appended when the queue is open and below
    /// capacity, handed back otherwise so that the producer can retry —
    /// a full queue never drops.
    pub fn offer(&mut self, command: Command) -> (r: Result<(), Command>)
        ensures
            final(self).cap == old(self).cap,
            final(self).closed == old(self).closed,
            old(self).closed || old(self).items@.len() >= old(self).cap ==> r == Err::<
                (),
                Command,
            >(command) && final(self).items@ == old(self).items@,
            !old(self).closed && old(self).items@.len() < old(self).cap ==> r is Ok
                && final(self).items@ == old(self).items@.push(command),
    {
        if self.closed || self.items.len() >= self.cap {
            Err(command)
        } else {
            self.items.push(command);
            Ok(())
        }
    }

    /// Hand out the oldest queued command, if any.
    pub fn dequeue(&mut self) -> (r: Option<Command>)
        ensures
            final(self).cap == old(self).cap,
            final(self).closed == old(self).closed,
            (final(self).items@, r) == spec_dequeue(old(self).items@),
    {
        if self.items.len() == 0 {
            None
        } else {
            let c = self.items.remove(0);
            proof {
                assert(self.items@ =~= old(self).items@.drop_first());
            }
            Some(c)
        }
    }

    /// Record that the consumer side has gone away; queued commands stay
    /// queued but nothing new is accepted.
    pub fn close(&mut self)
        ensures
            final(self).items@ == old(self).items@,
            final(self).cap == old(self).cap,
            final(self).closed,
    {
        self.closed = true;
    }
}

} // verus!

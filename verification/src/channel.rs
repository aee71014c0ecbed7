//! The line channel: a bounded, ordered, single-consumer queue of lines.
//!
//! The session wires it with capacity 1, so at most one undelivered line
//! is ever in flight between the reader and the dispatcher. The channel
//! owns the backpressure discipline: a send against a full channel is
//! refused and the producer must wait until the consumer has taken the
//! pending line. Arrival order is delivery order — first in, first out.
//!
//! This type is the pure queue contract; the runtime that suspends a
//! waiting producer and wakes it again lives outside the library and
//! is answerable to exactly this contract.

use vstd::prelude::*;

verus! {

/// What became of one send attempt.
pub enum SendAttempt {
    /// The line was enqueued.
    Accepted,
    /// The channel is full: the producer must wait until the consumer
    /// has taken the pending line, then try again.
    MustWait,
}

/// A bounded FIFO queue of lines with one consumer.
pub struct LineChannel {
    queue: Vec<String>,
    capacity: usize,
}

impl LineChannel {
    /// The undelivered lines, oldest first.
    pub closed spec fn lines(&self) -> Seq<Seq<char>> {
        self.queue@.map_values(|l: String| l@)
    }

    /// The most lines the channel may hold at once.
    pub closed spec fn cap(&self) -> nat {
        self.capacity as nat
    }

    /// The channel never holds more lines than its capacity, and the
    /// capacity admits at least one line.
    pub closed spec fn wf(&self) -> bool {
        self.queue.len() <= self.capacity && self.capacity >= 1
    }

    /// A further send would be refused.
    pub open spec fn is_full(&self) -> bool {
        self.lines().len() >= self.cap()
    }

    /// Nothing is waiting to be delivered.
    pub open spec fn is_empty(&self) -> bool {
        self.lines().len() == 0
    }

    /// An empty channel of the given capacity.
    pub fn with_capacity(capacity: usize) -> (c: LineChannel)
        requires
            capacity >= 1,
        ensures
            c.wf(),
            c.cap() == capacity,
            c.lines() == Seq::<Seq<char>>::empty(),
    {
        let c = LineChannel { queue: Vec::new(), capacity };
        proof {
            assert(c.lines() =~= Seq::<Seq<char>>::empty());
        }
        c
    }

    /// The channel as the session wires it: capacity 1, so at most one
    /// undelivered line is in flight.
    pub fn new() -> (c: LineChannel)
        ensures
            c.wf(),
            c.cap() == 1,
            c.lines() == Seq::<Seq<char>>::empty(),
    {
        LineChannel::with_capacity(1)
    }

    /// One send attempt. A full channel refuses the line unchanged and
    /// the producer must wait; otherwise the line joins the back of the
    /// queue.
    pub fn send(&mut self, line: String) -> (r: SendAttempt)
        requires
            old(self).wf(),
        ensures
            final(self).wf(),
            final(self).cap() == old(self).cap(),
            old(self).is_full() ==> r is MustWait && final(self).lines() == old(self).lines(),
            !old(self).is_full() ==> r is Accepted && final(self).lines() == old(self).lines().push(
                line@,
            ),
    {
        if self.queue.len() >= self.capacity {
            proof {
                assert(final(self).lines() =~= old(self).lines());
            }
            SendAttempt::MustWait
        } else {
            self.queue.push(line);
            proof {
                assert(final(self).lines() =~= old(self).lines().push(line@));
            }
            SendAttempt::Accepted
        }
    }

    /// The consumer takes the oldest undelivered line, if any.
    pub fn recv(&mut self) -> (r: Option<String>)
        requires
            old(self).wf(),
        ensures
            final(self).wf(),
            final(self).cap() == old(self).cap(),
            old(self).is_empty() ==> r is None && final(self).lines() == old(self).lines(),
            !old(self).is_empty() ==> (r matches Some(line) && line@ == old(self).lines().first()
                && final(self).lines() == old(self).lines().drop_first()),
    {
        if self.queue.len() == 0 {
            proof {
                assert(final(self).lines() =~= old(self).lines());
            }
            None
        } else {
            let line = self.queue.remove(0);
            proof {
                assert(final(self).lines() =~= old(self).lines().drop_first());
            }
            Some(line)
        }
    }

    /// Backpressure law: a capacity-1 channel never holds more than one
    /// undelivered line, and exactly when it holds that one line it is
    /// full, so a second send attempt is refused (`send` answers
    /// `MustWait` and changes nothing) until the line is consumed, after
    /// which the channel is no longer full and a send is accepted again.
    pub proof fn lemma_capacity_one_backpressure(&self)
        requires
            self.wf(),
            self.cap() == 1,
        ensures
            self.lines().len() <= 1,
            self.lines().len() == 1 <==> self.is_full(),
            self.lines().len() == 0 <==> !self.is_full(),
    {
    }
}

} // verus!

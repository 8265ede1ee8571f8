use std::collections::VecDeque;
use vstd::prelude::*;

verus! {

/// What one attempt to take the next job from a work channel found.
pub enum Received<J> {
    /// The oldest pending job, now owned by the caller.
    Job(J),
    /// Nothing is pending yet, but jobs may still arrive: the caller waits.
    Empty,
    /// The producer side is closed and every job has been handed out.
    Closed,
}

/// An unbounded, first-in first-out queue of jobs whose producer side can be
/// closed. After closing, the jobs already queued are still handed out, in
/// order; only then does a taker see `Received::Closed`.
pub struct WorkChannel<J> {
    pending: VecDeque<J>,
    open: bool,
    /// Every job ever accepted, in order of acceptance.
    sent: Ghost<Seq<J>>,
    /// Every job handed out so far, in order.
    delivered: Ghost<Seq<J>>,
}

impl<J> WorkChannel<J> {
    /// The jobs accepted and not yet handed out, oldest first.
    pub closed spec fn pending(&self) -> Seq<J> {
        self.pending@
    }

    pub closed spec fn is_open(&self) -> bool {
        self.open
    }

    pub closed spec fn sent(&self) -> Seq<J> {
        self.sent@
    }

    pub closed spec fn delivered(&self) -> Seq<J> {
        self.delivered@
    }

    /// Nothing is lost or duplicated: what was handed out, followed by what
    /// still waits, is exactly what was accepted.
    pub closed spec fn wf(&self) -> bool {
        self.sent@ == self.delivered@ + self.pending@
    }

    pub fn new() -> (r: Self)
        ensures
            r.wf(),
            r.is_open(),
            r.pending() == Seq::<J>::empty(),
            r.sent() == Seq::<J>::empty(),
            r.delivered() == Seq::<J>::empty(),
    {
        let r = WorkChannel {
            pending: VecDeque::new(),
            open: true,
            sent: Ghost(Seq::empty()),
            delivered: Ghost(Seq::empty()),
        };
        proof {
            assert(r.sent@ =~= r.delivered@ + r.pending@);
        }
        r
    }

    pub fn is_closed(&self) -> (r: bool)
        ensures
            r == !self.is_open(),
    {
        !self.open
    }

    /// Queues `job` behind every job already pending. A closed channel takes
    /// nothing: the job is handed back in `Err` and the channel is unchanged.
    pub fn send(&mut self, job: J) -> (r: Result<(), J>)
        requires
            old(self).wf(),
        ensures
            final(self).wf(),
            final(self).is_open() == old(self).is_open(),
            final(self).delivered() == old(self).delivered(),
            old(self).is_open() ==> {
                &&& r is Ok
                &&& final(self).pending() == old(self).pending().push(job)
                &&& final(self).sent() == old(self).sent().push(job)
            },
            !old(self).is_open() ==> {
                &&& r == Err::<(), J>(job)
                &&& final(self).pending() == old(self).pending()
                &&& final(self).sent() == old(self).sent()
            },
    {
        if self.open {
            proof {
                self.sent@ = self.sent@.push(job);
                assert(self.sent@ =~= self.delivered@ + self.pending@.push(job));
            }
            self.pending.push_back(job);
            Ok(())
        } else {
            Err(job)
        }
    }

    /// Closes the producer side. Closing again changes nothing.
    pub fn close(&mut self)
        requires
            old(self).wf(),
        ensures
            final(self).wf(),
            !final(self).is_open(),
            final(self).pending() == old(self).pending(),
            final(self).sent() == old(self).sent(),
            final(self).delivered() == old(self).delivered(),
    {
        self.open = false;
    }

    /// Takes the oldest pending job. With none pending, tells an open channel
    /// (wait for more) from a closed one (no job will ever come).
    pub fn recv(&mut self) -> (r: Received<J>)
        requires
            old(self).wf(),
        ensures
            final(self).wf(),
            final(self).is_open() == old(self).is_open(),
            final(self).sent() == old(self).sent(),
            old(self).pending().len() > 0 ==> {
                &&& r == Received::Job(old(self).pending()[0])
                &&& final(self).pending() == old(self).pending().drop_first()
                &&& final(self).delivered() == old(self).delivered().push(old(self).pending()[0])
            },
            old(self).pending().len() == 0 ==> {
                &&& final(self).pending() == old(self).pending()
                &&& final(self).delivered() == old(self).delivered()
                &&& (if old(self).is_open() { r is Empty } else { r is Closed })
            },
    {
        match self.pending.pop_front() {
            Some(job) => {
                proof {
                    self.delivered@ = self.delivered@.push(job);
                    assert(self.sent@ =~= self.delivered@ + self.pending@);
                }
                Received::Job(job)
            },
            None => {
                if self.open {
                    Received::Empty
                } else {
                    Received::Closed
                }
            },
        }
    }
}

/// Once nothing is pending, every job ever accepted has been handed out,
/// exactly once each and in the order accepted. In particular, a taker only
/// sees `Received::Closed` after every job accepted before the close has been
/// handed out.
pub proof fn lemma_drained_delivered_all<J>(ch: &WorkChannel<J>)
    requires
        ch.wf(),
        ch.pending().len() == 0,
    ensures
        ch.delivered() == ch.sent(),
{
    assert(ch.delivered() + ch.pending() =~= ch.delivered());
}

/// At every moment, the jobs handed out so far are a prefix of the jobs
/// accepted, and nothing was handed out that was not accepted.
pub proof fn lemma_delivered_prefix_of_sent<J>(ch: &WorkChannel<J>)
    requires
        ch.wf(),
    ensures
        ch.delivered().len() + ch.pending().len() == ch.sent().len(),
        ch.delivered() == ch.sent().take(ch.delivered().len() as int),
{
    assert(ch.sent().take(ch.delivered().len() as int) =~= ch.delivered());
}

} // verus!

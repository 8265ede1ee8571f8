use crate::channel::Received;
use vstd::prelude::*;

verus! {

/// A worker is running until it sees the channel closed; then it has
/// terminated, for good.
#[derive(PartialEq, Eq, Structural, Debug, Clone, Copy)]
pub enum WorkerState {
    Running,
    Terminated,
}

/// What a worker does next with what its dequeue attempt returned.
pub enum WorkerAction<J> {
    /// Run this job, outside the channel's lock, then dequeue again.
    Run(J),
    /// No job yet: block until one arrives or the channel closes.
    Wait,
    /// Leave the loop: the worker's thread ends.
    Exit,
}

/// One worker: its identifier (for diagnostics only) and its state.
pub struct Worker {
    id: usize,
    state: WorkerState,
}

/// The worker's transition on one dequeue result.
pub open spec fn next_state<J>(s: WorkerState, r: Received<J>) -> WorkerState {
    match s {
        WorkerState::Terminated => WorkerState::Terminated,
        WorkerState::Running => match r {
            Received::Closed => WorkerState::Terminated,
            _ => WorkerState::Running,
        },
    }
}

impl Worker {
    pub closed spec fn id(&self) -> nat {
        self.id as nat
    }

    pub closed spec fn state(&self) -> WorkerState {
        self.state
    }

    pub fn new(id: usize) -> (r: Self)
        ensures
            r.id() == id,
            r.state() == WorkerState::Running,
    {
        Worker { id, state: WorkerState::Running }
    }

    pub fn id_of(&self) -> (r: usize)
        ensures
            r == self.id(),
    {
        self.id
    }

    pub fn is_running(&self) -> (r: bool)
        ensures
            r == (self.state() == WorkerState::Running),
    {
        match self.state {
            WorkerState::Running => true,
            WorkerState::Terminated => false,
        }
    }

    /// Decides what to do with a dequeue result. A running worker runs a
    /// delivered job (exactly the one delivered), waits on an empty open
    /// channel and terminates on a closed one. A terminated worker only exits;
    /// a job handed to it is dropped, never run.
    pub fn step<J>(&mut self, r: Received<J>) -> (a: WorkerAction<J>)
        ensures
            final(self).id() == old(self).id(),
            final(self).state() == next_state(old(self).state(), r),
            old(self).state() == WorkerState::Running ==> match r {
                Received::Job(j) => a == WorkerAction::Run(j),
                Received::Empty => a is Wait,
                Received::Closed => a is Exit,
            },
            old(self).state() == WorkerState::Terminated ==> a is Exit,
    {
        match self.state {
            WorkerState::Terminated => WorkerAction::Exit,
            WorkerState::Running => match r {
                Received::Job(j) => WorkerAction::Run(j),
                Received::Empty => WorkerAction::Wait,
                Received::Closed => {
                    self.state = WorkerState::Terminated;
                    WorkerAction::Exit
                },
            },
        }
    }
}

/// A terminated worker never runs again, whatever it is handed afterwards.
pub proof fn lemma_terminated_is_final<J>(rs: Seq<Received<J>>)
    ensures
        run_states(WorkerState::Terminated, rs) == WorkerState::Terminated,
    decreases rs.len(),
{
    if rs.len() > 0 {
        lemma_terminated_is_final(rs.drop_last());
    }
}

/// The state reached from `s` after the dequeue results `rs`, in order.
pub open spec fn run_states<J>(s: WorkerState, rs: Seq<Received<J>>) -> WorkerState
    decreases rs.len(),
{
    if rs.len() == 0 {
        s
    } else {
        next_state(run_states(s, rs.drop_last()), rs.last())
    }
}

} // verus!

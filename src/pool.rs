use vstd::prelude::*;

verus! {

/// The two misuses of a pool that are refused.
#[derive(PartialEq, Eq, Structural, Debug, Clone, Copy)]
pub enum PoolError {
    /// A pool was asked for with no workers at all.
    ConstructionError,
    /// A job was submitted after teardown had closed the producer side.
    SubmissionAfterShutdown,
}

/// Whether a pool of `size` workers may be built: only a positive size may.
pub fn check_size(size: usize) -> (r: Result<(), PoolError>)
    ensures
        size > 0 <==> r is Ok,
        size == 0 <==> r == Err::<(), PoolError>(PoolError::ConstructionError),
{
    if size == 0 {
        Err(PoolError::ConstructionError)
    } else {
        Ok(())
    }
}

/// The pool's own records: how many workers it has, whether its producer side
/// is still open, and which workers' thread handles have already been taken
/// for joining.
pub struct PoolCore {
    size: usize,
    open: bool,
    taken: Vec<bool>,
}

impl PoolCore {
    pub closed spec fn size(&self) -> nat {
        self.size as nat
    }

    pub closed spec fn is_open(&self) -> bool {
        self.open
    }

    /// `taken()[i]` holds once worker `i`'s handle has been taken.
    pub closed spec fn taken(&self) -> Seq<bool> {
        self.taken@
    }

    /// The size is positive and fixed, with one record per worker.
    pub closed spec fn wf(&self) -> bool {
        &&& self.size > 0
        &&& self.taken@.len() == self.size
    }

    /// Every worker's handle has been taken and joined.
    pub open spec fn all_joined(&self) -> bool {
        forall|i: int| 0 <= i < self.size() ==> #[trigger] self.taken()[i]
    }

    /// A pool of `size` workers, open for submission, none of them joined.
    /// A size of zero is a programmer error, refused by `check_size`.
    pub fn new(size: usize) -> (r: Self)
        requires
            size > 0,
        ensures
            r.wf(),
            r.size() == size,
            r.is_open(),
            r.taken() == Seq::new(size as nat, |i: int| false),
    {
        let mut taken: Vec<bool> = Vec::with_capacity(size);
        let mut i: usize = 0;
        while i < size
            invariant
                i <= size,
                taken@ == Seq::new(i as nat, |k: int| false),
            decreases size - i,
        {
            taken.push(false);
            i = i + 1;
            proof {
                assert(taken@ =~= Seq::new(i as nat, |k: int| false));
            }
        }
        PoolCore { size, open: true, taken }
    }

    pub fn size_of(&self) -> (r: usize)
        ensures
            r == self.size(),
    {
        self.size
    }

    /// The identifiers of the workers to spawn: `0`, `1`, ..., `size - 1`.
    pub fn worker_ids(&self) -> (r: Vec<usize>)
        requires
            self.wf(),
        ensures
            r@.len() == self.size(),
            forall|i: int| 0 <= i < r@.len() ==> r@[i] == i,
    {
        let mut ids: Vec<usize> = Vec::with_capacity(self.size);
        let mut i: usize = 0;
        while i < self.size
            invariant
                i <= self.size,
                ids@.len() == i,
                forall|k: int| 0 <= k < i ==> ids@[k] == k,
            decreases self.size - i,
        {
            ids.push(i);
            i = i + 1;
        }
        ids
    }

    /// Whether a job may be submitted now: only while the producer side is
    /// open.
    pub fn check_submit(&self) -> (r: Result<(), PoolError>)
        ensures
            self.is_open() <==> r is Ok,
            !self.is_open() <==> r == Err::<(), PoolError>(PoolError::SubmissionAfterShutdown),
    {
        if self.open {
            Ok(())
        } else {
            Err(PoolError::SubmissionAfterShutdown)
        }
    }

    /// Closes the producer side. Returns whether it was open, so that the
    /// close itself happens at most once; a second call is a no-op.
    pub fn close(&mut self) -> (r: bool)
        requires
            old(self).wf(),
        ensures
            final(self).wf(),
            r == old(self).is_open(),
            !final(self).is_open(),
            final(self).size() == old(self).size(),
            final(self).taken() == old(self).taken(),
    {
        let was = self.open;
        self.open = false;
        was
    }

    /// Takes worker `i`'s handle. Returns whether it was still there: each
    /// handle is handed out for joining at most once.
    pub fn take_handle(&mut self, i: usize) -> (r: bool)
        requires
            old(self).wf(),
            i < old(self).size(),
        ensures
            final(self).wf(),
            r == !old(self).taken()[i as int],
            final(self).taken() == old(self).taken().update(i as int, true),
            final(self).size() == old(self).size(),
            final(self).is_open() == old(self).is_open(),
    {
        let was = self.taken[i];
        self.taken.set(i, true);
        !was
    }

    /// The shutdown protocol's bookkeeping: closes the producer side, then
    /// takes, in index order, every handle not taken yet. Returns whether the
    /// producer side was open, and the indices of the workers to join, in
    /// increasing order. Afterwards every worker counts as joined.
    pub fn teardown(&mut self) -> (r: (bool, Vec<usize>))
        requires
            old(self).wf(),
        ensures
            final(self).wf(),
            r.0 == old(self).is_open(),
            !final(self).is_open(),
            final(self).size() == old(self).size(),
            final(self).all_joined(),
            old(self).all_joined() ==> r.1@.len() == 0,
            forall|i: int| 0 <= i < r.1@.len() ==> #[trigger] r.1@[i] < old(self).size(),
            forall|i: int, j: int| 0 <= i < j < r.1@.len() ==> r.1@[i] < r.1@[j],
            forall|k: usize|
                k < old(self).size() ==> (#[trigger] r.1@.contains(k) <==> !old(
                    self,
                ).taken()[k as int]),
    {
        let was = self.close();
        let mut order: Vec<usize> = Vec::new();
        let mut i: usize = 0;
        while i < self.size
            invariant
                old(self).wf(),
                self.wf(),
                !self.is_open(),
                self.size() == old(self).size(),
                i <= self.size,
                forall|k: int| 0 <= k < i ==> #[trigger] self.taken()[k],
                forall|k: int| i <= k < self.size() ==> self.taken()[k] == old(self).taken()[k],
                old(self).all_joined() ==> order@.len() == 0,
                forall|m: int| 0 <= m < order@.len() ==> #[trigger] order@[m] < i,
                forall|m: int, n: int| 0 <= m < n < order@.len() ==> order@[m] < order@[n],
                forall|k: usize|
                    k < i ==> (#[trigger] order@.contains(k) <==> !old(self).taken()[k as int]),
            decreases self.size - i,
        {
            let ghost prev = order@;
            if self.take_handle(i) {
                order.push(i);
                proof {
                    assert forall|k: usize| k < i implies (#[trigger] order@.contains(k)
                        <==> prev.contains(k)) by {
                        if prev.contains(k) {
                            let m = choose|m: int| 0 <= m < prev.len() && prev[m] == k;
                            assert(order@[m] == k);
                        }
                    }
                    assert(order@[order@.len() - 1] == i);
                }
            }
            i = i + 1;
        }
        (was, order)
    }
}

} // verus!

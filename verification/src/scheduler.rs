//! Admission control for batch transfers: an integer permit pool of fixed
//! size, and the law that no interleaving of admissions and releases ever
//! has more permits out than the limit.

use vstd::prelude::*;

verus! {

/// A pool of `limit` permits; a task transfers only while it holds one.
#[derive(Debug, Clone, Copy, PartialEq, Eq, Structural)]
pub struct PermitPool {
    pub limit: usize,
    pub in_flight: usize,
}

impl PermitPool {
    /// At most `limit` permits are ever out.
    pub open spec fn wf(self) -> bool {
        self.in_flight <= self.limit
    }

    /// An empty pool of the given size.
    pub fn new(limit: usize) -> (r: PermitPool)
        ensures
            r.limit == limit,
            r.in_flight == 0,
            r.wf(),
    {
        PermitPool { limit, in_flight: 0 }
    }

    /// Admits one task when a permit is free; answers whether it was
    /// admitted.
    pub fn try_acquire(&mut self) -> (admitted: bool)
        requires
            old(self).wf(),
        ensures
            final(self).wf(),
            final(self).limit == old(self).limit,
            admitted == (old(self).in_flight < old(self).limit),
            admitted ==> final(self).in_flight == old(self).in_flight + 1,
            !admitted ==> final(self).in_flight == old(self).in_flight,
    {
        if self.in_flight < self.limit {
            self.in_flight = self.in_flight + 1;
            true
        } else {
            false
        }
    }

    /// Returns one permit; every exit path of an admitted task must come
    /// through here.
    pub fn release(&mut self)
        requires
            old(self).wf(),
            old(self).in_flight > 0,
        ensures
            final(self).wf(),
            final(self).limit == old(self).limit,
            final(self).in_flight == old(self).in_flight - 1,
    {
        self.in_flight = self.in_flight - 1;
    }
}

/// One step a scheduler can take against the pool.
#[derive(Debug, Clone, Copy, PartialEq, Eq, Structural)]
pub enum PoolOp {
    /// A task asks to begin; it begins only if a permit is free.
    Acquire,
    /// A finished task returns its permit.
    Release,
}

/// How many permits are out after the given steps, starting from an empty
/// pool of size `limit`: an admission counts only while a permit is free,
/// a release only while one is out.
pub open spec fn spec_pool_run(limit: int, ops: Seq<PoolOp>) -> int
    decreases ops.len(),
{
    if ops.len() == 0 {
        0
    } else {
        let prev = spec_pool_run(limit, ops.drop_last());
        match ops.last() {
            PoolOp::Acquire => if prev < limit {
                prev + 1
            } else {
                prev
            },
            PoolOp::Release => if prev > 0 {
                prev - 1
            } else {
                prev
            },
        }
    }
}

/// Bounded concurrency: under any interleaving of admissions and releases,
/// the number of permits out stays between zero and the limit.
pub proof fn lemma_pool_run_bounded(limit: int, ops: Seq<PoolOp>)
    requires
        limit >= 0,
    ensures
        0 <= spec_pool_run(limit, ops) <= limit,
    decreases ops.len(),
{
    if ops.len() > 0 {
        lemma_pool_run_bounded(limit, ops.drop_last());
    }
}

} // verus!

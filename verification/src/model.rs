//! A ghost model of the pool's bookkeeping, and the laws of the recycling
//! policy proved over it.
//!
//! The model carries the two numbers the policy is about: how many workers
//! were ever minted, and how many closed workers await reuse. A history of
//! the pool is a sequence of operations, each either a request for a worker
//! or the first close of an issued handle. The executable policy functions
//! in `pool` are proved to implement `acquire_step` and `release_step`
//! exactly, so what is proved here of the model holds of the pool.

use vstd::prelude::*;

verus! {

/// One thing that can happen to the pool's bookkeeping.
pub enum PoolOp {
    /// A worker is requested from the pool.
    Acquire,
    /// A closed worker is reported back for reuse.
    Release,
}

/// The pool's bookkeeping state.
pub struct PoolModel {
    /// How many workers were ever minted.
    pub created: nat,
    /// How many closed workers await reuse.
    pub available: nat,
}

/// The bookkeeping state with the given counts.
pub open spec fn pool_model(created: nat, available: nat) -> PoolModel {
    PoolModel { created, available }
}

/// The state of a fresh pool: nothing minted, nothing awaiting reuse.
pub open spec fn initial_model() -> PoolModel {
    pool_model(0, 0)
}

/// A request for a worker: reuse one when any is available, and only
/// otherwise mint a new one.
pub open spec fn acquire_step(s: PoolModel) -> PoolModel {
    if s.available > 0 {
        pool_model(s.created, (s.available - 1) as nat)
    } else {
        pool_model(s.created + 1, s.available)
    }
}

/// A closed worker reported back: one more worker awaits reuse.
pub open spec fn release_step(s: PoolModel) -> PoolModel {
    pool_model(s.created, s.available + 1)
}

/// One operation applied to the bookkeeping state.
pub open spec fn step(s: PoolModel, op: PoolOp) -> PoolModel {
    match op {
        PoolOp::Acquire => acquire_step(s),
        PoolOp::Release => release_step(s),
    }
}

/// A whole history of operations applied in order.
pub open spec fn run(s: PoolModel, ops: Seq<PoolOp>) -> PoolModel
    decreases ops.len(),
{
    if ops.len() == 0 {
        s
    } else {
        run(step(s, ops[0]), ops.subrange(1, ops.len() as int))
    }
}

/// How many of the operations request a worker.
pub open spec fn count_acquires(ops: Seq<PoolOp>) -> nat
    decreases ops.len(),
{
    if ops.len() == 0 {
        0
    } else {
        (if ops[0] is Acquire {
            1 as nat
        } else {
            0 as nat
        }) + count_acquires(ops.subrange(1, ops.len() as int))
    }
}

/// How many of the operations report a worker back.
pub open spec fn count_releases(ops: Seq<PoolOp>) -> nat
    decreases ops.len(),
{
    if ops.len() == 0 {
        0
    } else {
        (if ops[0] is Release {
            1 as nat
        } else {
            0 as nat
        }) + count_releases(ops.subrange(1, ops.len() as int))
    }
}

/// The creation count never decreases, whatever sequence of operations the
/// pool goes through.
pub proof fn lemma_created_monotonic(s: PoolModel, ops: Seq<PoolOp>)
    ensures
        s.created <= run(s, ops).created,
    decreases ops.len(),
{
    if ops.len() > 0 {
        lemma_created_monotonic(step(s, ops[0]), ops.subrange(1, ops.len() as int));
    }
}

/// Requests from a pool with nothing to reuse each mint a genuine worker:
/// two of them raise the creation count by exactly two and still leave
/// nothing to reuse.
pub proof fn lemma_drained_pool_mints_twice(s: PoolModel)
    requires
        s.available == 0,
    ensures
        acquire_step(acquire_step(s)).created == s.created + 2,
        acquire_step(acquire_step(s)).available == 0,
{
}

/// Requesting a worker, closing it, and requesting again never mints a
/// second worker: the close left one worker to reuse, so the second
/// request is served by recycling and the creation count stays where the
/// first request put it.
pub proof fn lemma_close_then_reuse(s: PoolModel)
    ensures
        acquire_step(release_step(acquire_step(s))).created == acquire_step(s).created,
        acquire_step(release_step(acquire_step(s))).available == acquire_step(s).available,
{
}

/// Conservation of workers: across any history, the creation count exceeds
/// the count awaiting reuse by exactly the requests not yet answered by a
/// report back.
pub proof fn lemma_conservation(s: PoolModel, ops: Seq<PoolOp>)
    ensures
        run(s, ops).created - run(s, ops).available == s.created - s.available + count_acquires(
            ops,
        ) - count_releases(ops),
    decreases ops.len(),
{
    if ops.len() > 0 {
        lemma_conservation(step(s, ops[0]), ops.subrange(1, ops.len() as int));
    }
}

/// No phantom workers: in a history where reports back never outnumber
/// requests - and they cannot, since a handle reports back at most once,
/// on its first close - the pool never has more workers awaiting reuse
/// than it has ever minted, so reuse can never hand out a worker that was
/// not genuinely created.
pub proof fn lemma_no_phantom_workers(ops: Seq<PoolOp>)
    requires
        count_releases(ops) <= count_acquires(ops),
    ensures
        run(initial_model(), ops).available <= run(initial_model(), ops).created,
{
    lemma_conservation(initial_model(), ops);
}

} // verus!

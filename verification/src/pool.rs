//! The recycling pool, the worker handles it issues, and the error a closed
//! worker reports.

use crate::model;
use crate::shared;
use std::cell::Cell;
use std::rc::Rc;
use vstd::prelude::*;

verus! {

/// The one error a worker reports: its work was requested after it had
/// been closed.
#[derive(Debug, Clone)]
pub struct WorkerClosedError;

impl WorkerClosedError {
    /// The error rendered as text.
    pub fn message(&self) -> (m: &'static str)
        ensures
            m@ == "worker is already closed"@,
    {
        "worker is already closed"
    }
}

/// A worker handle issued by a pool. It performs its work until it is
/// closed; closing it reports the underlying worker back to the pool that
/// issued it, so a later request can be served without minting.
pub struct Worker {
    closed: bool,
    /// The issuing pool's count of recyclable workers.
    recycle: Rc<Cell<u32>>,
}

impl Worker {
    /// Whether this handle has been closed.
    pub closed spec fn is_closed(&self) -> bool {
        self.closed
    }

    /// Attempt the worker's unit of work, which fails exactly when the
    /// worker has been closed.
    pub fn do_work(&self) -> (r: Result<(), WorkerClosedError>)
        ensures
            r is Ok <==> !self.is_closed(),
            r is Err <==> self.is_closed(),
    {
        if self.closed {
            return Err(WorkerClosedError);
        }
        Ok(())
    }

    /// Close the handle. The first close marks it closed and reports one
    /// more recyclable worker to the issuing pool; closing an already
    /// closed handle changes nothing, so a worker can never be counted as
    /// recyclable twice on account of one handle.
    pub fn close(&mut self)
        ensures
            final(self).is_closed(),
            old(self).is_closed() ==> *final(self) == *old(self),
    {
        if !self.closed {
            self.closed = true;
            let count: u32 = shared::read_count(&self.recycle);
            shared::write_count(&self.recycle, release_policy(count));
        }
    }
}

/// The recycling decision on a request for a worker: with `available`
/// recyclable workers on hand, reuse one of them when there is one, and
/// only otherwise mint a new worker. Returns the new creation count and
/// the new count of recyclable workers.
pub fn acquire_policy(created: u32, available: u32) -> (r: (u32, u32))
    requires
        created < u32::MAX,
    ensures
        available == 0 ==> r.0 == created + 1 && r.1 == 0,
        available > 0 ==> r.0 == created && r.1 == available - 1,
        model::pool_model(r.0 as nat, r.1 as nat) == model::acquire_step(
            model::pool_model(created as nat, available as nat),
        ),
{
    if available > 0 {
        (created, available - 1)
    } else {
        (created + 1, available)
    }
}

/// The recycling decision when a handle is first closed: one more worker
/// becomes available for reuse. The count holds at the top of its range;
/// it cannot actually get there, since a pool mints fewer than `u32::MAX`
/// workers and never has more recyclable workers than it has minted.
pub fn release_policy(available: u32) -> (r: u32)
    ensures
        available < u32::MAX ==> r == available + 1,
        available == u32::MAX ==> r == available,
{
    if available < u32::MAX {
        available + 1
    } else {
        available
    }
}

/// A pool that hands out worker handles and recycles the workers of closed
/// handles: a request is served by reviving a previously closed worker when
/// one is available, and only otherwise by minting a new one.
pub struct WorkerPool {
    /// How many workers have ever been minted by this pool.
    num_created: u32,
    /// Count of closed workers awaiting reuse, shared with every handle
    /// this pool has issued.
    available: Rc<Cell<u32>>,
}

impl WorkerPool {
    /// How many workers this pool has minted so far.
    pub closed spec fn created_count(&self) -> u32 {
        self.num_created
    }

    /// A fresh pool: no worker minted yet, none awaiting reuse.
    pub fn new() -> (p: WorkerPool)
        ensures
            p.created_count() == 0,
    {
        WorkerPool { num_created: 0, available: Rc::new(shared::new_count_cell(0)) }
    }

    /// Hand out an open worker handle. When a recyclable worker is on
    /// hand it is revived and no new worker is minted; the creation count
    /// therefore grows by at most one per request, and by exactly one only
    /// when nothing was available for reuse.
    pub fn get_worker(&mut self) -> (w: Worker)
        requires
            old(self).created_count() < u32::MAX,
        ensures
            !w.is_closed(),
            old(self).created_count() <= final(self).created_count(),
            final(self).created_count() <= old(self).created_count() + 1,
    {
        let count: u32 = shared::read_count(&self.available);
        let (created, remaining): (u32, u32) = acquire_policy(self.num_created, count);
        self.num_created = created;
        shared::write_count(&self.available, remaining);
        Worker { closed: false, recycle: shared::share(&self.available) }
    }

    /// Report how many workers were ever minted. Reuse does not show up
    /// here: a recycled worker was counted once, when it was first minted.
    pub fn get_num_workers_created(&self) -> (n: u32)
        ensures
            n == self.created_count(),
    {
        self.num_created
    }
}

} // verus!

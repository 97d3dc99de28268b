//! A resource pool that hands out short-lived worker handles, counts how
//! many distinct workers it has ever minted, and recycles closed workers
//! instead of minting a new one on every request.

use vstd::prelude::*;

mod shared;

pub mod model;
pub mod pool;

pub use pool::Worker;
pub use pool::WorkerClosedError;
pub use pool::WorkerPool;

verus! {

/// Create a new worker pool with no workers minted and none awaiting reuse.
pub fn create_worker_pool() -> (p: WorkerPool)
    ensures
        p.created_count() == 0,
{
    WorkerPool::new()
}

} // verus!

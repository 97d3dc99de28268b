use worker_pool::create_worker_pool;
use worker_pool::pool::acquire_policy;
use worker_pool::pool::release_policy;

#[test]
fn fresh_pool_has_created_nothing() {
    let worker_pool = create_worker_pool();
    assert_eq!(worker_pool.get_num_workers_created(), 0);
}

#[test]
fn fresh_worker_does_its_work() {
    let mut worker_pool = create_worker_pool();
    let worker = worker_pool.get_worker();
    assert!(worker.do_work().is_ok());
}

#[test]
fn closed_error_carries_its_message() {
    let mut worker_pool = create_worker_pool();
    let mut worker = worker_pool.get_worker();
    worker.close();
    let err = worker.do_work().unwrap_err();
    assert_eq!(err.message(), "worker is already closed");
}

#[test]
fn double_close_does_not_duplicate_availability() {
    let mut worker_pool = create_worker_pool();
    let mut worker_a = worker_pool.get_worker();
    worker_a.close();
    worker_a.close();

    // Only one worker was ever closed, so only one request can be served
    // by reuse; the next one must mint a second worker.
    let _worker_b = worker_pool.get_worker();
    let _worker_c = worker_pool.get_worker();
    assert_eq!(worker_pool.get_num_workers_created(), 2);
}

#[test]
fn counter_never_decreases() {
    let mut worker_pool = create_worker_pool();
    let mut last = worker_pool.get_num_workers_created();

    let mut worker_a = worker_pool.get_worker();
    assert!(worker_pool.get_num_workers_created() >= last);
    last = worker_pool.get_num_workers_created();

    let mut worker_b = worker_pool.get_worker();
    assert!(worker_pool.get_num_workers_created() >= last);
    last = worker_pool.get_num_workers_created();

    worker_a.close();
    assert!(worker_pool.get_num_workers_created() >= last);
    last = worker_pool.get_num_workers_created();

    let mut worker_c = worker_pool.get_worker();
    assert!(worker_pool.get_num_workers_created() >= last);
    last = worker_pool.get_num_workers_created();

    worker_b.close();
    worker_c.close();
    assert!(worker_pool.get_num_workers_created() >= last);
}

#[test]
fn interleaved_handles_mint_only_when_nothing_is_free() {
    let mut worker_pool = create_worker_pool();
    let mut worker_a = worker_pool.get_worker();
    let _worker_b = worker_pool.get_worker();
    worker_a.close();
    // worker_a's worker is free again: no mint here.
    let _worker_c = worker_pool.get_worker();
    // Nothing is free any more: this one is minted.
    let _worker_d = worker_pool.get_worker();
    assert_eq!(worker_pool.get_num_workers_created(), 3);
}

#[test]
fn many_close_and_reuse_cycles_keep_one_worker() {
    let mut worker_pool = create_worker_pool();
    for _ in 0..10 {
        let mut worker = worker_pool.get_worker();
        worker.do_work().expect("an open worker must do its work");
        worker.close();
    }
    assert_eq!(worker_pool.get_num_workers_created(), 1);
}

#[test]
fn recycled_worker_is_open_again() {
    let mut worker_pool = create_worker_pool();
    let mut worker_a = worker_pool.get_worker();
    worker_a.close();
    assert!(worker_a.do_work().is_err());

    let worker_b = worker_pool.get_worker();
    assert!(worker_b.do_work().is_ok());
}

#[test]
fn acquire_policy_mints_exactly_when_nothing_is_available() {
    assert_eq!(acquire_policy(0, 0), (1, 0));
    assert_eq!(acquire_policy(5, 0), (6, 0));
    assert_eq!(acquire_policy(5, 3), (5, 2));
    assert_eq!(acquire_policy(7, 1), (7, 0));
}

#[test]
fn release_policy_frees_one_more_worker() {
    assert_eq!(release_policy(0), 1);
    assert_eq!(release_policy(41), 42);
    assert_eq!(release_policy(u32::MAX), u32::MAX);
}

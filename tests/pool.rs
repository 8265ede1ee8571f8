use thread_pool::pool::{check_size, PoolCore, PoolError};

#[test]
fn zero_size_is_a_construction_error() {
    assert_eq!(check_size(0), Err(PoolError::ConstructionError));
}

#[test]
fn positive_sizes_are_accepted() {
    assert_eq!(check_size(1), Ok(()));
    assert_eq!(check_size(4), Ok(()));
    assert_eq!(check_size(usize::MAX), Ok(()));
}

#[test]
fn new_pool_has_one_worker_per_slot() {
    for size in 1..10usize {
        let core = PoolCore::new(size);
        assert_eq!(core.size_of(), size);
        assert_eq!(core.worker_ids(), (0..size).collect::<Vec<usize>>());
    }
}

#[test]
fn submission_allowed_until_teardown() {
    let mut core = PoolCore::new(2);
    assert_eq!(core.check_submit(), Ok(()));
    let _ = core.teardown();
    assert_eq!(core.check_submit(), Err(PoolError::SubmissionAfterShutdown));
}

#[test]
fn teardown_closes_and_joins_every_worker_in_order() {
    let mut core = PoolCore::new(4);
    let (was_open, order) = core.teardown();
    assert!(was_open);
    assert_eq!(order, vec![0, 1, 2, 3]);
}

#[test]
fn second_teardown_is_a_no_op() {
    let mut core = PoolCore::new(3);
    let _ = core.teardown();
    let (was_open, order) = core.teardown();
    assert!(!was_open);
    assert!(order.is_empty());
}

#[test]
fn close_reports_only_the_first_time() {
    let mut core = PoolCore::new(1);
    assert!(core.close());
    assert!(!core.close());
}

#[test]
fn each_handle_is_taken_once() {
    let mut core = PoolCore::new(3);
    assert!(core.take_handle(1));
    assert!(!core.take_handle(1));
    let (_, order) = core.teardown();
    assert_eq!(order, vec![0, 2]);
}

use async_logging::pool::ThreadPool;

#[test]
fn all_jobs_complete_before_shutdown_returns() {
    // More jobs than workers.
    let mut pool: ThreadPool<u64> = ThreadPool::new(3);
    for job in 1..=7u64 {
        pool.execute(job);
    }
    pool.shutdown();
    assert_eq!(pool.completed_jobs().as_slice(), &[1, 2, 3, 4, 5, 6, 7]);
    assert!(pool.queued_jobs().is_empty());
    assert_eq!(pool.worker_count(), 0);
}

#[test]
fn fewer_jobs_than_workers_still_all_complete() {
    let mut pool: ThreadPool<u64> = ThreadPool::new(5);
    pool.execute(42);
    pool.shutdown();
    assert_eq!(pool.completed_jobs().as_slice(), &[42]);
}

#[test]
fn jobs_delivered_in_submission_order() {
    let mut pool: ThreadPool<u64> = ThreadPool::new(2);
    pool.execute(10);
    pool.execute(20);
    pool.execute(30);
    assert_eq!(pool.run_next(), Some(10));
    assert_eq!(pool.run_next(), Some(20));
    assert_eq!(pool.queued_jobs().as_slice(), &[30]);
    assert_eq!(pool.completed_jobs().as_slice(), &[10, 20]);
}

#[test]
fn run_next_on_empty_queue_finds_nothing() {
    let mut pool: ThreadPool<u64> = ThreadPool::new(1);
    assert_eq!(pool.run_next(), None);
    assert!(pool.completed_jobs().is_empty());
}

#[test]
fn resize_loses_and_duplicates_nothing() {
    // Jobs in flight while the pool is resized: some already run, some
    // still queued. Every accepted job must be accounted for exactly once.
    let mut pool: ThreadPool<u64> = ThreadPool::new(2);
    for job in 1..=5u64 {
        pool.execute(job);
    }
    assert_eq!(pool.run_next(), Some(1));
    assert_eq!(pool.run_next(), Some(2));
    pool.set_size(4);
    assert_eq!(pool.worker_count(), 4);
    assert!(pool.queued_jobs().is_empty());
    assert_eq!(pool.completed_jobs().as_slice(), &[1, 2, 3, 4, 5]);
}

#[test]
fn resize_then_new_jobs_still_complete() {
    let mut pool: ThreadPool<u64> = ThreadPool::new(1);
    pool.execute(1);
    pool.set_size(2);
    pool.execute(2);
    pool.shutdown();
    assert_eq!(pool.completed_jobs().as_slice(), &[1, 2]);
}

use advanced_demo::concurrency::batch::join_outcome;
use advanced_demo::concurrency::counter::{increment_shared, next_count, CounterError};
use advanced_demo::{DataProcessor, NumberProcessor, ThreadSafeCounter};
use tokio::runtime::{Builder, Runtime};

fn pool() -> Runtime {
    Builder::new_multi_thread().worker_threads(4).build().unwrap()
}

fn run_batch(n: usize) -> Result<i32, CounterError> {
    let runtime = pool();
    let counter = ThreadSafeCounter::new();
    let mut handles = vec![];
    for _ in 0..n {
        let handle = counter.get_count_arc();
        handles.push(runtime.spawn_blocking(move || increment_shared(&handle)));
    }
    let reports: Vec<Result<i32, CounterError>> =
        handles.into_iter().map(|h| runtime.block_on(h).unwrap()).collect();
    join_outcome(&reports, counter.get_count())
}

#[test]
fn test_thread_safe_counter() {
    let runtime = pool();
    let counter = ThreadSafeCounter::new();
    let mut handles = vec![];

    for _ in 0..5 {
        let counter_clone = counter.get_count_arc();
        let handle = runtime.spawn_blocking(move || {
            let mut count = counter_clone.lock().unwrap();
            *count += 1;
        });
        handles.push(handle);
    }

    for handle in handles {
        runtime.block_on(handle).unwrap();
    }

    assert_eq!(counter.get_count(), Ok(5));
}

#[test]
fn test_complete_workflow() {
    let processor = NumberProcessor {
        multiplier: 2,
        name: String::from("Test"),
    };
    assert_eq!(processor.process(5), 10);

    let runtime = pool();
    let counter = ThreadSafeCounter::new();
    let mut handles = vec![];

    for _ in 0..3 {
        let counter_clone = counter.get_count_arc();
        let handle = runtime.spawn_blocking(move || {
            let mut count = counter_clone.lock().unwrap();
            *count += 1;
        });
        handles.push(handle);
    }

    for handle in handles {
        runtime.block_on(handle).unwrap();
    }

    assert_eq!(counter.get_count(), Ok(3));
}

#[test]
fn batches_count_their_workers() {
    for _ in 0..20 {
        for n in [0usize, 1, 5, 50] {
            assert_eq!(run_batch(n), Ok(n as i32));
        }
    }
}

#[test]
fn five_workers_leave_five() {
    assert_eq!(run_batch(5), Ok(5));
}

#[test]
fn empty_batch_joins_at_zero() {
    assert_eq!(run_batch(0), Ok(0));
}

#[test]
fn increment_adds_one_each_time() {
    let counter = ThreadSafeCounter::new();
    assert_eq!(counter.get_count(), Ok(0));
    assert_eq!(counter.increment(), Ok(1));
    assert_eq!(counter.increment(), Ok(2));
    assert_eq!(counter.get_count(), Ok(2));
}

#[test]
fn handles_share_one_counter() {
    let counter = ThreadSafeCounter::new();
    let handle = counter.get_count_arc();
    assert_eq!(increment_shared(&handle), Ok(1));
    assert_eq!(counter.get_count(), Ok(1));
    assert_eq!(*handle.lock().unwrap(), 1);
}

#[test]
fn next_count_stops_at_the_maximum() {
    assert_eq!(next_count(0), Ok(1));
    assert_eq!(next_count(-1), Ok(0));
    assert_eq!(next_count(i32::MAX - 1), Ok(i32::MAX));
    assert_eq!(next_count(i32::MAX), Err(CounterError::Overflow));
}

#[test]
fn overflowing_increment_keeps_the_value() {
    let counter = ThreadSafeCounter::new();
    let handle = counter.get_count_arc();
    *handle.lock().unwrap() = i32::MAX;
    assert_eq!(counter.increment(), Err(CounterError::Overflow));
    assert_eq!(counter.get_count(), Ok(i32::MAX));
}

#[test]
fn poisoned_lock_is_reported() {
    let counter = ThreadSafeCounter::new();
    let handle = counter.get_count_arc();
    let runtime = pool();
    let joined = runtime.block_on(runtime.spawn_blocking(move || {
        let _guard = handle.lock().unwrap();
        panic!("worker failed while holding the lock");
    }));
    assert!(joined.is_err());
    assert_eq!(counter.increment(), Err(CounterError::LockPoisoned));
    assert_eq!(counter.get_count(), Err(CounterError::LockPoisoned));
}

#[test]
fn join_reports_the_first_failure() {
    let reports = vec![Ok(1), Err(CounterError::LockPoisoned), Err(CounterError::Overflow)];
    assert_eq!(join_outcome(&reports, Ok(3)), Err(CounterError::LockPoisoned));
    let reports = vec![Ok(1), Ok(2)];
    assert_eq!(join_outcome(&reports, Ok(2)), Ok(2));
    assert_eq!(join_outcome(&reports, Err(CounterError::LockPoisoned)), Err(CounterError::LockPoisoned));
    assert_eq!(join_outcome(&vec![], Ok(0)), Ok(0));
}

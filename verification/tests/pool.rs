use std::sync::Arc;
use std::sync::Mutex;
use std::time::Duration;
use std::time::Instant;
use threadpool::ThreadPool;
use threadpool::Worker;

/// Runs a worker's loop to completion on the calling thread. This blocks
/// unless the pool's producer endpoint is already gone, so every test below
/// drops the pool handle before draining.
fn drain<F: Fn() + Send + 'static>(worker: Worker<F>) {
    let mut current = Some(worker);
    while let Some(w) = current.take() {
        current = w.step();
    }
}

#[test]
fn twenty_jobs_run_exactly_once_across_four_workers() {
    let collector: Arc<Mutex<Vec<usize>>> = Arc::new(Mutex::new(Vec::new()));
    let (pool, workers) = ThreadPool::new(4);
    assert_eq!(workers.len(), 4);
    for i in 0..20usize {
        let c = Arc::clone(&collector);
        pool.run(move || {
            c.lock().unwrap().push(i);
        });
    }
    // Dropping the handle drops the queue's only producer, which closes the
    // queue, exactly as `wait` would; the workers can then drain it here on
    // the test thread.
    drop(pool);
    for w in workers {
        drain(w);
    }
    let mut got = collector.lock().unwrap().clone();
    got.sort();
    let want: Vec<usize> = (0..20).collect();
    assert_eq!(got, want);
}

#[test]
fn single_worker_runs_jobs_in_submission_order() {
    let collector: Arc<Mutex<Vec<usize>>> = Arc::new(Mutex::new(Vec::new()));
    let (pool, workers) = ThreadPool::new(1);
    for i in 0..10usize {
        let c = Arc::clone(&collector);
        pool.run(move || {
            c.lock().unwrap().push(i);
        });
    }
    drop(pool);
    for w in workers {
        drain(w);
    }
    let got = collector.lock().unwrap().clone();
    let want: Vec<usize> = (0..10).collect();
    assert_eq!(got, want);
}

#[test]
fn step_hands_the_worker_back_while_the_queue_is_open() {
    let collector: Arc<Mutex<Vec<usize>>> = Arc::new(Mutex::new(Vec::new()));
    let (pool, mut workers) = ThreadPool::new(1);
    let c = Arc::clone(&collector);
    pool.run(move || {
        c.lock().unwrap().push(7);
    });
    let worker = workers.pop().unwrap();
    // One queued job: the first turn executes it and hands the worker back.
    let again = worker.step();
    assert!(again.is_some());
    assert_eq!(collector.lock().unwrap().clone(), vec![7]);
    // Close the queue: the next turn observes closure and consumes the worker.
    drop(pool);
    let done = again.unwrap().step();
    assert!(done.is_none());
    assert_eq!(collector.lock().unwrap().clone(), vec![7]);
}

#[test]
fn workers_compete_for_jobs_from_one_queue() {
    let collector: Arc<Mutex<Vec<usize>>> = Arc::new(Mutex::new(Vec::new()));
    let (pool, mut workers) = ThreadPool::new(2);
    for i in 0..2usize {
        let c = Arc::clone(&collector);
        pool.run(move || {
            c.lock().unwrap().push(i);
        });
    }
    let second = workers.pop().unwrap();
    let first = workers.pop().unwrap();
    // Each worker takes one turn: together they drain both queued jobs, each
    // job delivered to exactly one of them.
    let first = first.step();
    let second = second.step();
    let mut got = collector.lock().unwrap().clone();
    got.sort();
    assert_eq!(got, vec![0, 1]);
    drop(pool);
    assert!(first.unwrap().step().is_none());
    assert!(second.unwrap().step().is_none());
}

#[test]
fn wait_with_zero_workers_returns_despite_submissions() {
    let collector: Arc<Mutex<Vec<usize>>> = Arc::new(Mutex::new(Vec::new()));
    let (pool, workers) = ThreadPool::new(0);
    assert!(workers.is_empty());
    for i in 0..5usize {
        let c = Arc::clone(&collector);
        pool.run(move || {
            c.lock().unwrap().push(i);
        });
    }
    let start = Instant::now();
    pool.wait();
    assert!(start.elapsed() < Duration::from_secs(5));
    // No worker exists, so no submitted job was ever executed.
    assert!(collector.lock().unwrap().is_empty());
}

#[test]
fn wait_returns_near_instantly_when_the_workers_are_gone() {
    let (pool, workers) = ThreadPool::<fn()>::new(2);
    drop(workers);
    let start = Instant::now();
    pool.wait();
    assert!(start.elapsed() < Duration::from_secs(5));
}

#[test]
fn submission_without_any_consumer_is_a_silent_no_op() {
    let collector: Arc<Mutex<Vec<usize>>> = Arc::new(Mutex::new(Vec::new()));
    let (pool, workers) = ThreadPool::new(1);
    // Discarding every worker leaves the queue without a consumer endpoint:
    // a submission is dropped silently, with no panic and no error.
    drop(workers);
    let c = Arc::clone(&collector);
    pool.run(move || {
        c.lock().unwrap().push(1);
    });
    pool.wait();
    assert!(collector.lock().unwrap().is_empty());
}

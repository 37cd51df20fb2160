use std::sync::atomic::{AtomicUsize, Ordering};
use std::sync::Arc;
use std::time::Instant;

use coil_core::mutex::MutexLock;
use coil_core::runtime::RuntimeHandle;
use coil_core::wait::{parse_wait_request, sleep_outcome, wait_for_event, WaitError, WaitRequest};

fn runtime() -> RuntimeHandle {
    RuntimeHandle::create().expect("no usable runtime")
}

/// Blocking acquisition: the unbounded retry loop the embedder runs around
/// the verified one-step transitions.
fn acquire(lock: &MutexLock, rt: &RuntimeHandle) {
    loop {
        if lock.try_acquire() {
            return;
        }
        lock.await_release(rt);
    }
}

/// Polls `done` via the library's own timed wait until it reaches `expected`
/// or a generous bound of polling rounds runs out.
fn wait_until(rt: &RuntimeHandle, done: &AtomicUsize, expected: usize) {
    let mut rounds: usize = 0;
    while done.load(Ordering::SeqCst) < expected && rounds < 4000 {
        wait_for_event(rt, &vec![0i128, 2_000_000i128]).expect("sleep failed");
        rounds += 1;
    }
}

#[test]
fn sleep_waits_at_least_the_requested_duration() {
    let rt = runtime();
    let started = Instant::now();
    let r = wait_for_event(&rt, &vec![0i128, 50_000_000i128]);
    assert_eq!(r, Ok(()));
    assert!(started.elapsed().as_nanos() >= 50_000_000);
}

#[test]
fn zero_duration_sleep_completes() {
    let rt = runtime();
    assert_eq!(wait_for_event(&rt, &vec![0i128, 0i128]), Ok(()));
}

#[test]
fn unknown_tag_fails_with_invalid_input() {
    let rt = runtime();
    let r = wait_for_event(&rt, &vec![99i128]);
    assert_eq!(r, Err(WaitError::UnknownTag { tag: 99 }));
}

#[test]
fn negative_tag_fails_with_invalid_input() {
    let rt = runtime();
    let r = wait_for_event(&rt, &vec![-5i128]);
    assert_eq!(r, Err(WaitError::UnknownTag { tag: -5 }));
}

#[test]
fn parse_accepts_sleep_requests_exactly() {
    assert_eq!(
        parse_wait_request(&vec![0i128, 0i128]),
        Ok(WaitRequest::Sleep { nanos: 0 })
    );
    assert_eq!(
        parse_wait_request(&vec![0i128, 7i128]),
        Ok(WaitRequest::Sleep { nanos: 7 })
    );
    assert_eq!(
        parse_wait_request(&vec![0i128, u64::MAX as i128]),
        Ok(WaitRequest::Sleep { nanos: u64::MAX })
    );
    assert_eq!(
        parse_wait_request(&vec![1i128, 4i128]),
        Err(WaitError::UnknownTag { tag: 1 })
    );
}

#[test]
fn sleep_outcome_maps_completion_reports() {
    assert_eq!(sleep_outcome(true), Ok(()));
    assert_eq!(sleep_outcome(false), Err(WaitError::TaskFailed));
}

#[test]
fn release_without_acquire_leaves_lock_free() {
    let rt = runtime();
    let lock = MutexLock::new();
    assert!(!lock.get_locked());
    lock.release();
    assert!(!lock.get_locked());
    // The lock is still usable afterwards.
    acquire(&lock, &rt);
    assert!(lock.get_locked());
    lock.release();
    assert!(!lock.get_locked());
}

#[test]
fn get_locked_tracks_acquire_and_release() {
    let lock = MutexLock::new();
    assert!(!lock.get_locked());
    assert!(lock.try_acquire());
    assert!(lock.get_locked());
    // A second attempt cannot win while the lock is held.
    assert!(!lock.try_acquire());
    assert!(lock.get_locked());
    lock.release();
    assert!(!lock.get_locked());
}

#[test]
fn metrics_report_at_least_one_worker() {
    let rt = runtime();
    let m = rt.fetch_metrics();
    assert!(m.num_workers >= 1);
    // The other two counters are machine words: never negative, merely
    // best-effort snapshots.
    let _depth: usize = m.global_queue_depth;
    let _alive: usize = m.num_alive_tasks;
}

#[test]
fn fire_and_forget_runs_every_submitted_job() {
    let rt = Arc::new(runtime());
    let counter = Arc::new(AtomicUsize::new(0));
    for _ in 0..100 {
        let counter = Arc::clone(&counter);
        rt.spawn_fire_and_forget(move || {
            counter.fetch_add(1, Ordering::SeqCst);
        });
    }
    wait_until(&rt, &counter, 100);
    assert_eq!(counter.load(Ordering::SeqCst), 100);
}

#[test]
fn concurrent_cycles_preserve_mutual_exclusion() {
    let rt = Arc::new(runtime());
    let lock = Arc::new(MutexLock::new());
    // A deliberately non-atomic read-modify-write, protected only by the
    // lock: a broken lock loses or duplicates increments.
    let shared = Arc::new(AtomicUsize::new(0));
    let finished = Arc::new(AtomicUsize::new(0));
    let tasks: usize = 8;
    let cycles: usize = 15;

    for _ in 0..tasks {
        let rt2 = Arc::clone(&rt);
        let lock = Arc::clone(&lock);
        let shared = Arc::clone(&shared);
        let finished = Arc::clone(&finished);
        rt.spawn_fire_and_forget(move || {
            for _ in 0..cycles {
                acquire(&lock, &rt2);
                let seen = shared.load(Ordering::SeqCst);
                // Widen the race window while holding the lock.
                wait_for_event(&rt2, &vec![0i128, 300_000i128]).expect("sleep failed");
                shared.store(seen + 1, Ordering::SeqCst);
                lock.release();
            }
            finished.fetch_add(1, Ordering::SeqCst);
        });
    }

    wait_until(&rt, &finished, tasks);
    assert_eq!(finished.load(Ordering::SeqCst), tasks);
    assert_eq!(shared.load(Ordering::SeqCst), tasks * cycles);
}

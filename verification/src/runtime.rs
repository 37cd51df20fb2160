//! The runtime manager: a handle to a multi-threaded executor with I/O and
//! timer facilities, the fire-and-forget task bridge, and the telemetry
//! snapshot read from it.
//!
//! The handle is immutable after construction and safe to share. The embedder
//! is expected to build exactly one per process and keep it for the process
//! lifetime; no shutdown operation is offered, so shutdown-ordering bugs are
//! traded for a permanently running pool.

use vstd::prelude::*;

verus! {

#[verifier::external_type_specification]
#[verifier::external_body]
pub struct ExRuntime(tokio::runtime::Runtime);

/// A handle to the worker pool. Immutable once built; every operation of this
/// crate that needs the executor borrows one.
pub struct RuntimeHandle {
    pub(crate) rt: tokio::runtime::Runtime,
}

/// A point-in-time snapshot of the runtime's counters. Constructed fresh on
/// each request and never stored; the values are best-effort and unordered
/// with respect to concurrent task activity.
#[derive(PartialEq, Eq, Structural, Clone, Copy, Debug)]
pub struct Metrics {
    /// Depth of the global work queue.
    pub global_queue_depth: usize,
    /// Count of tasks currently alive.
    pub num_alive_tasks: usize,
    /// Count of worker threads; at least one in any pool this crate builds.
    pub num_workers: usize,
}

impl RuntimeHandle {
    /// Relies on tokio::runtime::Builder: `new_multi_thread().enable_all().build()`
    /// returns a runtime whose worker pool has at least one thread, with I/O and
    /// timer drivers enabled, or an I/O error when the OS refuses the resources.
    /// The error case is collapsed to `None`: a host with no usable runtime
    /// cannot perform any other operation of this crate, so the embedder is
    /// expected to treat `None` as fatal.
    #[verifier::external_body]
    pub fn create() -> (r: Option<RuntimeHandle>) {
        match tokio::runtime::Builder::new_multi_thread().enable_all().build() {
            Ok(rt) => Some(RuntimeHandle { rt }),
            Err(_) => None,
        }
    }

    /// Relies on tokio::runtime::Runtime::metrics and on
    /// RuntimeMetrics::{global_queue_depth, num_alive_tasks, num_workers}:
    /// the three counters are read from the runtime, and `num_workers` is the
    /// configured worker-thread count, which tokio keeps at one or more for
    /// every runtime it builds (a zero count is refused at construction).
    #[verifier::external_body]
    pub fn fetch_metrics(&self) -> (m: Metrics)
        ensures
            m.num_workers >= 1,
    {
        let raw = self.rt.metrics();
        Metrics {
            global_queue_depth: raw.global_queue_depth(),
            num_alive_tasks: raw.num_alive_tasks(),
            num_workers: raw.num_workers(),
        }
    }

    /// Relies on tokio::runtime::Runtime::spawn_blocking: `job` is queued to
    /// run to completion on the runtime's dedicated blocking pool, so it may
    /// itself block its thread (for instance on a host lock) without stalling
    /// the async workers. The join handle is dropped: the submission is fire
    /// and forget, and the job's outcome — normal return or panic — is
    /// unobservable by the submitter. A panicking job takes down only its own
    /// blocking-pool task; the runtime survives.
    #[verifier::external_body]
    pub fn spawn_fire_and_forget<F: FnOnce() + Send + 'static>(&self, job: F) {
        let _ = self.rt.spawn_blocking(job);
    }
}

} // verus!

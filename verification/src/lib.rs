//! Concurrency bridge core: a shared handle to a multi-threaded runtime with
//! a fire-and-forget task bridge and a telemetry snapshot (`runtime`), a
//! blocking timed-wait service driven by a tagged instruction protocol
//! (`wait`), a cooperative mutual-exclusion primitive (`mutex`), and the
//! proved transition model of its locking protocol (`protocol`).

pub mod mutex;
pub mod protocol;
pub mod runtime;
pub mod wait;

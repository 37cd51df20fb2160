//! The cooperative mutual-exclusion primitive: an atomically updated boolean
//! (`false` = free, `true` = held) paired with a wake-notification channel.
//! The boolean is the sole source of truth for ownership: a caller owns the
//! lock only after a successful atomic transition from `false` to `true`.
//!
//! Acquisition is deliberately unfair: a release wakes one waiter, woken
//! waiters race on the compare-and-swap, and losers go back to waiting. No
//! timeout, cancellation or ownership tracking is provided; `release` by a
//! non-holder is indistinguishable from a legitimate release. The protocol
//! itself — that balanced use of these transitions admits at most one holder
//! at a time — is stated and proved over a model in `crate::protocol`.
//!
//! Acquisition that blocks until it succeeds is the unbounded retry loop
//! `loop { if try_acquire() { break; } await_release(rt); }`, run by the
//! embedder: the loop carries no termination measure on purpose, so it stands
//! outside the verified crate, while each of its two steps stands here.

use core::sync::atomic::AtomicBool;
use core::sync::atomic::Ordering;
use vstd::prelude::*;
use crate::runtime::RuntimeHandle;

verus! {

#[verifier::external_type_specification]
#[verifier::external_body]
pub struct ExNotify(tokio::sync::Notify);

/// A cooperative lock shared between any number of callers. Waiters suspend
/// on the notification channel instead of burning a worker thread; the state
/// itself is mutated only through the atomic operations below.
pub struct MutexLock {
    locked: AtomicBool,
    notify: tokio::sync::Notify,
}

/// Relies on tokio::sync::Notify::new: a fresh notification channel holding
/// no stored permit.
#[verifier::external_body]
fn new_notify() -> tokio::sync::Notify {
    tokio::sync::Notify::new()
}

/// Relies on tokio::sync::Notify::notify_one: stores a permit that wakes one
/// current or future waiter on the channel.
#[verifier::external_body]
fn notify_one_waiter(notify: &tokio::sync::Notify) {
    notify.notify_one();
}

/// Relies on tokio::sync::Notify::notified and
/// tokio::runtime::Runtime::block_on: blocks the calling thread until a
/// permit is available on the channel (one stored earlier, or one stored by a
/// later `notify_one`), consuming it. A wake-up carries no promise about the
/// lock state: the caller must re-check it. Per tokio's `block_on` contract
/// the caller must not already be inside an asynchronous execution context;
/// if no permit ever arrives the call blocks forever.
#[verifier::external_body]
fn block_until_notified(rt: &RuntimeHandle, notify: &tokio::sync::Notify) {
    rt.rt.block_on(notify.notified());
}

impl MutexLock {
    /// A fresh mutex in the `Unlocked` state, with an empty notification
    /// channel.
    pub fn new() -> MutexLock {
        MutexLock { locked: AtomicBool::new(false), notify: new_notify() }
    }

    /// One acquisition attempt: a single atomic compare-and-swap of the state
    /// from `Unlocked` to `Locked`. Returns `true` exactly when this call made
    /// that transition, in which case the caller is now the holder. Never
    /// blocks. Acquisition is this transition and nothing else: a caller that
    /// saw `false` must suspend on `await_release` and retry — the retry loop
    /// is unbounded by design (a caller that never sees a release waits
    /// forever), so it belongs to the embedder, one `try_acquire` and one
    /// `await_release` per round. The mutual exclusion that balanced use of
    /// these transitions provides is stated over the model in
    /// `crate::protocol` (`lemma_mutual_exclusion`); it cannot be stated
    /// here, where the shared state is visible only through the atomic
    /// operations.
    pub fn try_acquire(&self) -> bool {
        let won = self
            .locked
            .compare_exchange(false, true, Ordering::SeqCst, Ordering::SeqCst);
        won.is_ok()
    }

    /// Blocks the calling thread until a release wakes it (or until a permit
    /// stored by an earlier release is consumed). Wake order does not imply
    /// acquisition order: several waiters may be woken across releases, race
    /// on `try_acquire`, and all but one must come back here. A wake-up
    /// therefore carries no promise about the lock state.
    pub fn await_release(&self, rt: &RuntimeHandle) {
        block_until_notified(rt, &self.notify);
    }

    /// Unconditionally stores `Unlocked` and wakes one waiter. No ownership
    /// is tracked, so a release without a prior successful `acquire` is not
    /// an error and has the same effect as a normal release; in the model
    /// this is `protocol::lemma_release_unlocks`. Never blocks and never
    /// panics.
    pub fn release(&self) {
        self.locked.store(false, Ordering::SeqCst);
        notify_one_waiter(&self.notify);
    }

    /// A non-blocking, point-in-time read of the state: `true` when the read
    /// observed `Locked`. It races with concurrent `acquire` and `release`
    /// calls and is advisory only — diagnostics, not synchronization
    /// decisions.
    pub fn get_locked(&self) -> bool {
        self.locked.load(Ordering::SeqCst)
    }
}

} // verus!

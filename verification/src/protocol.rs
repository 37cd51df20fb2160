//! The transition model of the mutual-exclusion protocol in `crate::mutex`,
//! and the laws proved over it.
//!
//! The executable lock state is an atomically updated boolean shared between
//! threads, so nothing can be stated about it directly in a contract. This
//! module states the protocol instead: the state a point-in-time read would
//! observe (`locked`), together with the set of callers whose acquisition
//! succeeded and who have not yet released (`holders`). A successful
//! `try_acquire` is an `Acquire` step by the winning caller (a failed attempt
//! changes nothing and is no step); a `release` is a `Release` step by
//! whichever caller made it — the executable primitive tracks no ownership,
//! so the model lets any caller release from any state.

use vstd::prelude::*;

verus! {

/// One observable transition of a lock, tagged with an abstract caller
/// identity.
pub enum LockEvent {
    /// A successful compare-and-swap of the state from free to held by this
    /// caller. A failed attempt leaves no trace.
    Acquire { caller: nat },
    /// An unconditional store of the free state by this caller.
    Release { caller: nat },
}

/// The abstract state of one lock: what a point-in-time read observes, and
/// which callers currently hold it.
pub struct LockModel {
    /// `true` when the lock is held.
    pub locked: bool,
    /// The callers whose acquisition succeeded and who have not released yet.
    pub holders: Set<nat>,
}

/// The initial state of a fresh lock: free, held by nobody.
pub open spec fn init() -> LockModel {
    LockModel { locked: false, holders: Set::empty() }
}

/// How one event changes the state. An acquisition succeeds only from the
/// free state — the atomic compare-and-swap fails otherwise, and a failed
/// attempt is no event. A release sets the state free from any state and
/// drops the releasing caller from the holders, whether or not it was one.
pub open spec fn step(s: LockModel, e: LockEvent) -> LockModel {
    match e {
        LockEvent::Acquire { caller } => {
            if !s.locked {
                LockModel { locked: true, holders: s.holders.insert(caller) }
            } else {
                s
            }
        },
        LockEvent::Release { caller } => {
            LockModel { locked: false, holders: s.holders.remove(caller) }
        },
    }
}

/// The state reached from a fresh lock after a sequence of events.
pub open spec fn run(trace: Seq<LockEvent>) -> LockModel
    decreases trace.len(),
{
    if trace.len() == 0 {
        init()
    } else {
        step(run(trace.drop_last()), trace.last())
    }
}

/// A trace is balanced when every release is made by a caller holding the
/// lock at that point — the caller-discipline the primitive itself does not
/// enforce. An unbalanced release is permitted by the executable code (it is
/// not an error there), but it forfeits the exclusion law below: it frees a
/// lock some other caller still holds.
pub open spec fn balanced(trace: Seq<LockEvent>) -> bool
    decreases trace.len(),
{
    if trace.len() == 0 {
        true
    } else {
        balanced(trace.drop_last()) && match trace.last() {
            LockEvent::Release { caller } => run(trace.drop_last()).holders.contains(caller),
            LockEvent::Acquire { caller: _ } => true,
        }
    }
}

/// The inductive invariant behind the laws: the holder set stays finite, and
/// the boolean is the sole source of truth for ownership — the lock reads
/// held exactly when one caller holds it, and free exactly when none does.
pub open spec fn inv(s: LockModel) -> bool {
    &&& s.holders.finite()
    &&& (s.locked <==> s.holders.len() == 1)
    &&& (!s.locked ==> s.holders.len() == 0)
}

proof fn lemma_run_inv(trace: Seq<LockEvent>)
    requires
        balanced(trace),
    ensures
        inv(run(trace)),
    decreases trace.len(),
{
    if trace.len() > 0 {
        lemma_run_inv(trace.drop_last());
    }
}

/// Law: mutual exclusion. Under balanced use — any number of callers, any
/// interleaving of successful acquisitions and holder releases — at most one
/// caller holds the lock at any point.
pub proof fn lemma_mutual_exclusion(trace: Seq<LockEvent>)
    requires
        balanced(trace),
    ensures
        run(trace).holders.len() <= 1,
{
    lemma_run_inv(trace);
}

/// Law: under balanced use the atomic boolean is the sole source of truth for
/// ownership — the lock reads held exactly when one caller holds it, and free
/// exactly when no caller does.
pub proof fn lemma_lock_state_tracks_holders(trace: Seq<LockEvent>)
    requires
        balanced(trace),
    ensures
        run(trace).locked <==> run(trace).holders.len() == 1,
        !run(trace).locked <==> run(trace).holders.len() == 0,
{
    lemma_run_inv(trace);
}

/// Law: a release leaves the lock free from every state, so one made with no
/// prior successful acquisition behaves exactly like a normal release — a
/// read immediately after it observes the lock free.
pub proof fn lemma_release_unlocks(s: LockModel, caller: nat)
    ensures
        !step(s, LockEvent::Release { caller }).locked,
{
}

/// Law: a successful acquisition leaves the lock held, and the winning caller
/// is among the holders — a read immediately after it, before any release,
/// observes the lock held.
pub proof fn lemma_acquire_locks(s: LockModel, caller: nat)
    requires
        !s.locked,
    ensures
        step(s, LockEvent::Acquire { caller }).locked,
        step(s, LockEvent::Acquire { caller }).holders.contains(caller),
{
}

/// Law: acquisition succeeds only from the free state; from a held lock the
/// compare-and-swap changes nothing, whoever attempts it. Together with the
/// exclusion law this is why a second caller cannot become a holder before
/// the first releases.
pub proof fn lemma_acquire_fails_when_held(s: LockModel, caller: nat)
    requires
        s.locked,
    ensures
        step(s, LockEvent::Acquire { caller }) == s,
{
}

} // verus!

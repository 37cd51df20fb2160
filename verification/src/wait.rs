//! The blocking wait service: a tagged instruction protocol over a flat
//! integer sequence, validated up front, and a timed suspension executed on
//! the runtime. The caller's own thread blocks for the whole wait; validation
//! fails fast, before any task is scheduled.

use vstd::prelude::*;
use crate::runtime::RuntimeHandle;

verus! {

/// The tag that selects the timed-sleep operation. It is the only tag the
/// protocol currently defines; every other tag is invalid input.
pub const SLEEP_TAG: i128 = 0;

/// A validated wait instruction.
#[derive(PartialEq, Eq, Structural, Clone, Copy, Debug)]
pub enum WaitRequest {
    /// Suspend for at least this many nanoseconds.
    Sleep { nanos: u64 },
}

/// Why a wait call failed.
#[derive(PartialEq, Eq, Structural, Clone, Copy, Debug)]
pub enum WaitError {
    /// The first element of the request is not a recognized tag.
    UnknownTag { tag: i128 },
    /// The scheduled timer task terminated abnormally before completing.
    TaskFailed,
}

/// Validates a raw tagged request. The first element identifies the
/// operation; tag `SLEEP_TAG` takes exactly one further element, a
/// non-negative nanosecond duration. An unrecognized tag is rejected, and
/// nothing else is looked at in that case.
pub fn parse_wait_request(arguments: &Vec<i128>) -> (r: Result<WaitRequest, WaitError>)
    requires
        arguments@.len() >= 1,
        arguments@[0] == SLEEP_TAG ==> arguments@.len() == 2,
        arguments@[0] == SLEEP_TAG ==> 0 <= arguments@[1] <= u64::MAX,
    ensures
        arguments@[0] == SLEEP_TAG ==> r == Ok::<WaitRequest, WaitError>(
            WaitRequest::Sleep { nanos: arguments@[1] as u64 },
        ),
        arguments@[0] != SLEEP_TAG ==> r == Err::<WaitRequest, WaitError>(
            WaitError::UnknownTag { tag: arguments@[0] },
        ),
{
    let tag: i128 = arguments[0];
    if tag == SLEEP_TAG {
        let wide: i128 = arguments[1];
        Ok(WaitRequest::Sleep { nanos: wide as u64 })
    } else {
        Err(WaitError::UnknownTag { tag })
    }
}

/// Maps the completion report of the timer task to the caller-visible result:
/// a completed wait is a success, an abnormal termination is `TaskFailed`.
pub fn sleep_outcome(completed: bool) -> (r: Result<(), WaitError>)
    ensures
        completed ==> r == Ok::<(), WaitError>(()),
        !completed ==> r == Err::<(), WaitError>(WaitError::TaskFailed),
{
    if completed {
        Ok(())
    } else {
        Err(WaitError::TaskFailed)
    }
}

/// Relies on tokio::runtime::Runtime::{enter, spawn, block_on} and
/// tokio::time::sleep: a timer task for at least `nanos` nanoseconds is
/// scheduled on the runtime (the enter guard makes the runtime's timer driver
/// current while the sleep future is created), and the calling thread blocks
/// until that task settles. The join fails only if the timer task panicked or
/// was cancelled; the result reports whether it completed normally. Nothing is
/// promised of the result: it depends on the runtime's behaviour, not on the
/// arguments. Per tokio's `block_on` contract the caller must not already be
/// inside an asynchronous execution context.
#[verifier::external_body]
fn block_on_sleep(rt: &RuntimeHandle, nanos: u64) -> (completed: bool) {
    let guard = rt.rt.enter();
    let task = rt.rt.spawn(tokio::time::sleep(std::time::Duration::from_nanos(nanos)));
    drop(guard);
    rt.rt.block_on(task).is_ok()
}

/// Validates the tagged request and, for a sleep request, blocks the calling
/// thread until the timer task scheduled on the runtime completes. An
/// unrecognized tag fails with `UnknownTag` before any task is scheduled;
/// `TaskFailed` is returned only when the timer task itself terminated
/// abnormally. A malformed sleep request (wrong element count, or a duration
/// outside `u64`) is a violation of this function's precondition, not a
/// recoverable error.
pub fn wait_for_event(rt: &RuntimeHandle, arguments: &Vec<i128>) -> (r: Result<(), WaitError>)
    requires
        arguments@.len() >= 1,
        arguments@[0] == SLEEP_TAG ==> arguments@.len() == 2,
        arguments@[0] == SLEEP_TAG ==> 0 <= arguments@[1] <= u64::MAX,
    ensures
        arguments@[0] != SLEEP_TAG ==> r == Err::<(), WaitError>(
            WaitError::UnknownTag { tag: arguments@[0] },
        ),
        arguments@[0] == SLEEP_TAG ==> (r == Ok::<(), WaitError>(())
            || r == Err::<(), WaitError>(WaitError::TaskFailed)),
        r is Ok ==> arguments@[0] == SLEEP_TAG,
{
    match parse_wait_request(arguments) {
        Ok(WaitRequest::Sleep { nanos }) => sleep_outcome(block_on_sleep(rt, nanos)),
        Err(e) => Err(e),
    }
}

} // verus!

//! Taking turns: only one request at a time talks to the strip.
use vstd::prelude::*;
use crate::action::Action;
use crate::output::{busy, failure, Output, OutputView};

verus! {

/// How long to sleep between two attempts, in milliseconds.
pub const RETRY_MS: u64 = 50;

/// What came of an attempt to take the lock.
#[derive(Clone, Copy, PartialEq, Eq, Debug, Structural)]
pub enum Attempt {
    /// The lock is taken.
    Taken,
    /// Another request holds it.
    WouldBlock,
    /// The attempt failed.
    Failed,
}

/// What to do after an attempt.
#[derive(Clone, Copy, PartialEq, Eq, Debug, Structural)]
pub enum LockStep {
    /// Go on with the request.
    Proceed,
    /// Sleep for [`RETRY_MS`] and try again.
    Retry,
    /// Leave the request undone: the strip is busy.
    GiveUp,
    /// Leave the request undone: the lock cannot be used.
    Fail,
}

/// How long an action waits for its turn, in milliseconds. Control actions wait only briefly, so
/// that fast scrolling does not queue changes.
pub open spec fn patience(action: Action) -> u64 {
    if action == Action::Status {
        12000
    } else {
        300
    }
}

/// What to do after an attempt, when `waited` milliseconds have passed since the first.
pub open spec fn lock_step(action: Action, attempt: Attempt, waited: int) -> LockStep {
    match attempt {
        Attempt::Taken => LockStep::Proceed,
        Attempt::WouldBlock => if waited >= patience(action) {
            LockStep::GiveUp
        } else {
            LockStep::Retry
        },
        Attempt::Failed => LockStep::Fail,
    }
}

/// Gives how long an action waits for its turn, in milliseconds.
pub fn patience_ms(action: Action) -> (r: u64)
    ensures
        r == patience(action),
{
    if action == Action::Status {
        12000
    } else {
        300
    }
}

/// Decides what to do after an attempt to take the lock.
pub fn acquire(action: Action, attempt: Attempt, waited_ms: u64) -> (r: LockStep)
    ensures
        r == lock_step(action, attempt, waited_ms as int),
{
    match attempt {
        Attempt::Taken => LockStep::Proceed,
        Attempt::WouldBlock => if waited_ms >= patience_ms(action) {
            LockStep::GiveUp
        } else {
            LockStep::Retry
        },
        Attempt::Failed => LockStep::Fail,
    }
}

/// The status line of a request that was left undone without the lock, if it has one.
pub open spec fn undone_line(action: Action, step: LockStep) -> Option<OutputView> {
    match step {
        LockStep::Fail => Some(crate::output::failed("Cannot open Tapo request lock."@)),
        LockStep::GiveUp if action == Action::Status => Some(crate::output::busy_line()),
        _ => None,
    }
}

/// The status line to print when a request was left undone without the lock, if any.
pub fn left_undone(action: Action, step: LockStep) -> (r: Option<Output>)
    ensures
        match r {
            Some(out) => undone_line(action, step) == Some(out@),
            None => undone_line(action, step) is None,
        },
        step == LockStep::Fail ==> (r matches Some(out) && out@ == crate::output::failed(
            "Cannot open Tapo request lock."@,
        )),
        step == LockStep::GiveUp && action == Action::Status ==> (r matches Some(out) && out@
            == crate::output::busy_line()),
        step == LockStep::GiveUp && action != Action::Status ==> r is None,
        step == LockStep::Proceed || step == LockStep::Retry ==> r is None,
{
    match step {
        LockStep::Fail => Some(failure("Cannot open Tapo request lock.")),
        LockStep::GiveUp => if action == Action::Status {
            Some(busy())
        } else {
            None
        },
        LockStep::Proceed | LockStep::Retry => None,
    }
}

/// A request goes on exactly when it holds the lock, so requests are serialized.
pub proof fn only_the_holder_proceeds(action: Action, attempt: Attempt, waited: int)
    ensures
        lock_step(action, attempt, waited) == LockStep::Proceed <==> attempt == Attempt::Taken,
{
}

/// An action that sleeps between its attempts gives up in time: it retries after the attempt at
/// index `i` only while `i` sleeps are shorter than the time it waits.
pub proof fn waiting_ends(action: Action, waited: Seq<int>, attempts: Seq<Attempt>, i: int)
    requires
        0 <= i < waited.len(),
        waited.len() == attempts.len(),
        waited[0] >= 0,
        forall|k: int|
            #![trigger waited[k]]
            0 <= k < waited.len() - 1 ==> waited[k + 1] >= waited[k] + RETRY_MS,
        lock_step(action, attempts[i], waited[i]) == LockStep::Retry,
    ensures
        i * RETRY_MS < patience(action),
{
    waits_add_up(waited, i);
}

proof fn waits_add_up(waited: Seq<int>, i: int)
    requires
        0 <= i < waited.len(),
        waited[0] >= 0,
        forall|k: int|
            #![trigger waited[k]]
            0 <= k < waited.len() - 1 ==> waited[k + 1] >= waited[k] + RETRY_MS,
    ensures
        waited[i] >= i * RETRY_MS,
    decreases i,
{
    if i > 0 {
        waits_add_up(waited, i - 1);
        assert(waited[(i - 1) + 1] >= waited[i - 1] + RETRY_MS);
    }
}

/// While another request holds the strip, the status is asked for again until twelve seconds have
/// passed, and every control action until three tenths of a second have.
pub proof fn control_actions_wait_briefly(action: Action, waited: int)
    ensures
        lock_step(Action::Status, Attempt::WouldBlock, waited) == LockStep::Retry <==> waited
            < 12000,
        action != Action::Status ==> (lock_step(action, Attempt::WouldBlock, waited)
            == LockStep::Retry <==> waited < 300),
        patience(Action::Status) == 12000,
        action != Action::Status ==> patience(action) == 300,
        lock_step(action, Attempt::WouldBlock, waited) != LockStep::Retry ==> lock_step(
            action,
            Attempt::WouldBlock,
            waited,
        ) == LockStep::GiveUp,
{
}

/// A lock that is taken or cannot be used ends the waiting at once, for every action.
pub proof fn other_attempts_decide_at_once(action: Action, waited: int)
    ensures
        lock_step(action, Attempt::Taken, waited) == LockStep::Proceed,
        lock_step(action, Attempt::Failed, waited) == LockStep::Fail,
{
}

/// A control action makes at most seven attempts, and the status at most 241.
pub proof fn attempts_are_few(action: Action, waited: Seq<int>, attempts: Seq<Attempt>, i: int)
    requires
        0 <= i < waited.len(),
        waited.len() == attempts.len(),
        waited[0] >= 0,
        forall|k: int|
            #![trigger waited[k]]
            0 <= k < waited.len() - 1 ==> waited[k + 1] >= waited[k] + RETRY_MS,
        lock_step(action, attempts[i], waited[i]) == LockStep::Retry,
    ensures
        RETRY_MS == 50,
        action != Action::Status ==> i < 6,
        i < 240,
{
    waiting_ends(action, waited, attempts, i);
}

/// A lock that cannot be used is reported for every action, a busy strip for the status alone, and
/// a request that goes on or is tried again has nothing to report yet.
pub proof fn undone_requests_are_reported(action: Action)
    ensures
        undone_line(action, LockStep::Fail) == Some(
            crate::output::shown("⚠"@, "error"@, "Cannot open Tapo request lock."@),
        ),
        undone_line(Action::Status, LockStep::GiveUp) == Some(
            crate::output::shown("…"@, "busy"@, "Tapo is processing another request."@),
        ),
        action != Action::Status ==> undone_line(action, LockStep::GiveUp) is None,
        undone_line(action, LockStep::Proceed) is None,
        undone_line(action, LockStep::Retry) is None,
{
}

} // verus!

//! The readiness-gated I/O operation: one non-blocking attempt, made after
//! the socket reported itself ready, sorted into exactly one of three
//! outcomes.
use vstd::prelude::*;

verus! {

/// Why a non-blocking attempt did not transfer anything.
#[derive(Debug)]
pub struct IoFailure {
    /// The socket was not ready after all (a would-block signal).
    pub would_block: bool,
    /// The error's description, for the log.
    pub message: String,
}

/// The three-way outcome of one attempt.
#[derive(Debug)]
pub enum IoOutcome {
    /// The attempt moved this many bytes (zero included).
    Done(usize),
    /// A would-block signal after the readiness wait fired: wait and try again.
    NotReady,
    /// Any other error: it ends the operation's owner.
    Fatal(String),
}

/// The outcome that `res` falls under.
pub open spec fn outcome_of(res: Result<usize, IoFailure>, r: IoOutcome) -> bool {
    match res {
        Ok(n) => r == IoOutcome::Done(n),
        Err(f) => if f.would_block {
            r is NotReady
        } else {
            r matches IoOutcome::Fatal(m) && m@ == f.message@
        },
    }
}

/// Sorts the result of one non-blocking attempt: a count is a success, a
/// would-block signal is transient, and every other error is fatal.
pub fn classify(res: Result<usize, IoFailure>) -> (r: IoOutcome)
    ensures
        outcome_of(res, r),
{
    match res {
        Ok(n) => IoOutcome::Done(n),
        Err(f) => if f.would_block {
            IoOutcome::NotReady
        } else {
            IoOutcome::Fatal(f.message)
        },
    }
}

} // verus!

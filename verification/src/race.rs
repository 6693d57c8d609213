//! The time-limited wrapper: races an operation against an optional timer.
//!
//! The real transport races the HTTP call against a timer on the event loop.
//! What is verified here is the decision that race makes: which side's
//! completion determines the outcome, and that a tie goes to the operation.

use vstd::prelude::*;

use crate::errors::Error;
use std::time::Duration;

verus! {

/// A time limit applied to one operation: either a concrete limit or none.
///
/// With no limit the operation's own outcome passes through unchanged; with
/// a limit, whichever of operation and timer finishes first decides, and an
/// operation that finishes in the same instant as the timer wins the tie.
pub enum TimeLimited {
    /// Race the operation against a timer of this duration.
    Limited(Duration),
    /// No time limit: the operation's outcome passes through unchanged.
    Unlimited,
}

impl TimeLimited {
    /// A wrapper for an optional limit: a concrete duration gives a limited
    /// race, no duration passes the operation through.
    pub fn new(optional_time_limit: Option<Duration>) -> (t: TimeLimited)
        ensures
            match optional_time_limit {
                Some(d) => t == TimeLimited::Limited(d),
                None => t == TimeLimited::Unlimited,
            },
    {
        match optional_time_limit {
            Some(time_limit) => TimeLimited::limited(time_limit),
            None => TimeLimited::Unlimited,
        }
    }

    /// A wrapper with a concrete time limit.
    pub fn limited(time_limit: Duration) -> (t: TimeLimited)
        ensures
            t == TimeLimited::Limited(time_limit),
    {
        TimeLimited::Limited(time_limit)
    }

    /// One poll of the raced pair: `operation` is the operation's outcome if
    /// it has finished (`None` while it is still running), `timer_fired`
    /// says whether the timer has gone off (a timer that itself failed
    /// counts as fired). Returns the combined outcome, or `None` when
    /// neither side is done yet.
    ///
    /// An unlimited wrapper ignores the timer entirely. A limited one lets
    /// whichever side finished first decide; when both finished at once the
    /// operation wins, so a success is never turned into a timeout.
    pub fn poll<T>(&self, operation: Option<Result<T, Error>>, timer_fired: bool) -> (r: Option<
        Result<T, Error>,
    >)
        ensures
            self is Unlimited ==> r == operation,
            self is Limited && operation is Some ==> r == operation,
            self is Limited && operation is None && timer_fired ==> r == Some(
                Err::<T, Error>(Error::RequestTimeout),
            ),
            self is Limited && operation is None && !timer_fired ==> r is None,
    {
        match self {
            TimeLimited::Unlimited => operation,
            TimeLimited::Limited(_) => match operation {
                Some(outcome) => Some(outcome),
                None => {
                    if timer_fired {
                        Some(Err(Error::RequestTimeout))
                    } else {
                        None
                    }
                },
            },
        }
    }
}

} // verus!

//! A token as mathematics: a flag, a deadline on an integer time line, and
//! the steps that operations take.

use crate::error::Canceled;
use vstd::prelude::*;

verus! {

/// What a token holds at one moment.
///
/// Times are places on the clock's time line, counted in nanoseconds.
pub struct Model {
    /// Cancellation was requested, or a query found the deadline passed.
    pub canceled: bool,
    /// The time after which a query cancels the token, if there is one.
    pub deadline: Option<int>,
}

/// An operation that may change a token.
pub enum Op {
    /// A call of `cancel`.
    Cancel,
    /// A call of `is_canceled` or `check_cancel` that reads the given time
    /// from the clock.
    Poll(int),
}

impl Model {
    /// A token as its constructor leaves it.
    pub open spec fn fresh(deadline: Option<int>) -> Model {
        Model { canceled: false, deadline }
    }

    /// The clock reads strictly later than the deadline.
    pub open spec fn expired(self, now: int) -> bool {
        self.deadline matches Some(at) && now > at
    }

    /// The token after `cancel`.
    pub open spec fn cancel(self) -> Model {
        Model { canceled: true, ..self }
    }

    /// What `was_canceled` returns: the flag, whatever the time.
    pub open spec fn was_canceled(self) -> bool {
        self.canceled
    }

    /// What `is_canceled` returns when the clock reads `now`.
    pub open spec fn is_canceled(self, now: int) -> bool {
        self.canceled || self.expired(now)
    }

    /// What `check_cancel` returns when the clock reads `now`.
    pub open spec fn check_cancel(self, now: int) -> Result<(), Canceled> {
        if self.is_canceled(now) {
            Err(Canceled {  })
        } else {
            Ok(())
        }
    }

    /// The token after a query that read `now`: a passed deadline is latched
    /// into the flag.
    pub open spec fn poll(self, now: int) -> Model {
        Model { canceled: self.is_canceled(now), ..self }
    }

    /// The answer to a query depends on what the clock reads.
    pub open spec fn clock_matters(self) -> bool {
        !self.canceled && self.deadline is Some
    }

    /// The token after one operation.
    pub open spec fn step(self, op: Op) -> Model {
        match op {
            Op::Cancel => self.cancel(),
            Op::Poll(now) => self.poll(now),
        }
    }

    /// The token after a history of operations, the first one first.
    pub open spec fn run(self, ops: Seq<Op>) -> Model
        decreases ops.len(),
    {
        if ops.len() == 0 {
            self
        } else {
            self.run(ops.drop_last()).step(ops.last())
        }
    }
}

} // verus!

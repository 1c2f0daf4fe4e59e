//! The token's state machine in executable form.
//!
//! A [`State`] is a token in the hands of one owner: a plain flag and the
//! deadline. Each method takes one step of the [`Model`], and its contract
//! says which. The shared [`Token`](crate::token::Token) runs these steps on
//! what it reads from its atomic flag and from the clock.

use crate::clock::{instant_nanos, later};
use crate::error::Canceled;
use crate::model::Model;
use std::time::Instant;
use vstd::prelude::*;

verus! {

/// A token's flag and deadline, as plain values.
#[derive(Clone, Copy, Debug)]
pub struct State {
    /// Cancellation was requested, or a query found the deadline passed.
    pub canceled: bool,
    /// The instant after which a query cancels the token, if there is one.
    pub deadline: Option<Instant>,
}

impl View for State {
    type V = Model;

    open spec fn view(&self) -> Model {
        Model {
            canceled: self.canceled,
            deadline: match self.deadline {
                Some(at) => Some(instant_nanos(at)),
                None => None,
            },
        }
    }
}

impl State {
    /// A state that is not canceled, with the given deadline or none.
    pub fn new(deadline: Option<Instant>) -> (state: State)
        ensures
            !state.canceled,
            state.deadline == deadline,
            state@ == Model::fresh(state@.deadline),
    {
        State { canceled: false, deadline }
    }

    /// Marks the state as canceled.
    pub fn cancel(&mut self)
        ensures
            final(self)@ == old(self)@.cancel(),
            final(self).deadline == old(self).deadline,
    {
        self.canceled = true;
    }

    /// The flag, without a look at the deadline.
    pub fn was_canceled(&self) -> (canceled: bool)
        ensures
            canceled == self@.was_canceled(),
    {
        self.canceled
    }

    /// Whether the answer to a query depends on what the clock reads: the
    /// state is not canceled and has a deadline. Where it does not, a query
    /// changes nothing and is answered with the flag, whatever the time.
    pub fn clock_matters(&self) -> (matters: bool)
        ensures
            matters == self@.clock_matters(),
            !matters ==> forall|now: int|
                self@.is_canceled(now) == self@.was_canceled() && #[trigger] self@.poll(now)
                    == self@,
    {
        !self.canceled && self.deadline.is_some()
    }

    /// Whether the clock reading `now` lies strictly after the deadline.
    pub fn expired(&self, now: Instant) -> (expired: bool)
        ensures
            expired == self@.expired(instant_nanos(now)),
    {
        match self.deadline {
            Some(at) => later(now, at),
            None => false,
        }
    }

    /// Answers whether the operation should cease, given the clock reading
    /// `now`. A deadline that has passed is latched into the flag.
    pub fn is_canceled(&mut self, now: Instant) -> (canceled: bool)
        ensures
            canceled == old(self)@.is_canceled(instant_nanos(now)),
            final(self)@ == old(self)@.poll(instant_nanos(now)),
            final(self).deadline == old(self).deadline,
    {
        if self.canceled {
            true
        } else if self.expired(now) {
            self.canceled = true;
            true
        } else {
            false
        }
    }

    /// As [`State::is_canceled`], with the answer as a `Result`: the error
    /// exactly when the answer is yes.
    pub fn check_cancel(&mut self, now: Instant) -> (r: Result<(), Canceled>)
        ensures
            r == old(self)@.check_cancel(instant_nanos(now)),
            final(self)@ == old(self)@.poll(instant_nanos(now)),
            final(self).deadline == old(self).deadline,
    {
        Canceled::check(self.is_canceled(now))
    }
}

} // verus!

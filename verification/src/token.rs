//! The token that threads share.
//!
//! A [`Token`] keeps its flag in an atomic, so that every method takes
//! `&self` and the token can be shared by reference or in an `Arc`. Another
//! thread may set the flag between any two reads, so no contract here speaks
//! of its value: the contracts speak of the deadline, which never changes.
//! What a method does with the value that it read from the flag is a step of
//! [`State`], and the contracts there say which.

use crate::clock::{duration_nanos, instant_nanos};
use crate::error::Canceled;
use crate::state::State;
use std::sync::atomic::{AtomicBool, Ordering};
use std::time::{Duration, Instant};
use vstd::prelude::*;

verus! {

/// A cancellation token: a flag that only ever goes from false to true, and
/// an optional deadline, fixed when the token is made.
///
/// To share a token across threads, wrap it in a `std::sync::Arc`.
#[derive(Debug)]
pub struct Token {
    canceled: AtomicBool,
    deadline: Option<Instant>,
}

impl Token {
    /// The instant after which a query cancels the token, if there is one.
    pub closed spec fn deadline(&self) -> Option<Instant> {
        self.deadline
    }

    /// The clock reading `now` lies strictly after the token's deadline.
    pub open spec fn expired(&self, now: Instant) -> bool {
        self.deadline() matches Some(at) && instant_nanos(now) > instant_nanos(at)
    }

    /// The token's deadline lies `duration` after `start`; or that time is
    /// later than every instant, and the token has no deadline.
    pub open spec fn counts_from(&self, start: Instant, duration: Duration) -> bool {
        match self.deadline() {
            Some(at) => instant_nanos(at) == instant_nanos(start) + duration_nanos(duration),
            None => forall|now: Instant| #[trigger]
                instant_nanos(now) < instant_nanos(start) + duration_nanos(duration),
        }
    }

    /// Creates a token with no deadline. It is canceled only once
    /// [`Token::cancel`] has been called.
    pub fn new() -> (token: Self)
        ensures
            token.deadline() is None,
    {
        Token { canceled: AtomicBool::new(false), deadline: None }
    }

    /// Creates a token whose deadline lies `duration` after the present
    /// reading of the clock: [`Token::with_duration_from`] that reading,
    /// whatever it is.
    pub fn with_duration(duration: Duration) -> (token: Self)
        ensures
            exists|start: Instant| #[trigger] token.counts_from(start, duration),
    {
        let start = Instant::now();
        let token = Self::with_duration_from(start, duration);
        assert(token.counts_from(start, duration));
        token
    }

    /// Creates a token whose deadline lies `duration` after `start`.
    ///
    /// Where that time is beyond what an `Instant` can hold, the token gets
    /// no deadline: no reading of the clock could lie after it.
    pub fn with_duration_from(start: Instant, duration: Duration) -> (token: Self)
        ensures
            token.counts_from(start, duration),
    {
        match start.checked_add(duration) {
            Some(deadline) => Self::with_deadline(deadline),
            None => Self::new(),
        }
    }

    /// Creates a token with the given deadline.
    pub fn with_deadline(deadline: Instant) -> (token: Self)
        ensures
            token.deadline() == Some(deadline),
    {
        Token { canceled: AtomicBool::new(false), deadline: Some(deadline) }
    }

    /// Marks the token as canceled: one atomic store, with release ordering.
    ///
    /// It neither allocates nor blocks nor fails, so it may be called from a
    /// signal handler.
    pub fn cancel(&self) {
        self.canceled.store(true, Ordering::Release);
    }

    /// Reads the flag, with acquire ordering, without a look at the deadline.
    ///
    /// This is for the party that started an operation and wants to know how
    /// it ended. The operation itself calls [`Token::is_canceled`] or
    /// [`Token::check_cancel`].
    pub fn was_canceled(&self) -> (canceled: bool) {
        self.canceled.load(Ordering::Acquire)
    }

    /// Tests whether the operation should cease.
    ///
    /// The clock is read only where the answer depends on it: where the flag
    /// is not set and the token has a deadline. Then the answer is that of
    /// [`State::is_canceled`] on the flag and the reading, and the flag is
    /// set if that step raised it. Else the answer is the flag.
    pub fn is_canceled(&self) -> (canceled: bool) {
        let state = self.load();
        if state.clock_matters() {
            self.latch(state, Instant::now())
        } else {
            state.was_canceled()
        }
    }

    /// Tests whether the operation should cease, given the clock reading
    /// `now`: the answer is that of [`State::is_canceled`] on the flag and
    /// `now`, and the flag is set if that step raised it.
    ///
    /// Whatever the flag holds, the answer is yes once the deadline has
    /// passed.
    pub fn is_canceled_at(&self, now: Instant) -> (canceled: bool)
        ensures
            self.expired(now) ==> canceled,
    {
        self.latch(self.load(), now)
    }

    /// Tests whether the operation should cease, and gives the answer of
    /// [`Token::is_canceled`] as a `Result`, for use with `?`: the error
    /// exactly when that answer is yes.
    pub fn check_cancel(&self) -> (r: Result<(), Canceled>) {
        Canceled::check(self.is_canceled())
    }

    /// Gives the answer of [`Token::is_canceled_at`] as a `Result`: the
    /// error exactly when that answer is yes.
    pub fn check_cancel_at(&self, now: Instant) -> (r: Result<(), Canceled>)
        ensures
            self.expired(now) ==> r is Err,
    {
        Canceled::check(self.is_canceled_at(now))
    }

    /// Reads the token's state: the flag, with acquire ordering, and the
    /// deadline.
    fn load(&self) -> (state: State)
        ensures
            state.deadline == self.deadline(),
    {
        State { canceled: self.was_canceled(), deadline: self.deadline }
    }

    /// Takes the step of a query on the state that was read, and stores the
    /// flag if the step raised it.
    fn latch(&self, read: State, now: Instant) -> (canceled: bool)
        requires
            read.deadline == self.deadline(),
        ensures
            canceled == read@.is_canceled(instant_nanos(now)),
    {
        let mut state = read;
        let canceled = state.is_canceled(now);
        if state.canceled && !read.canceled {
            self.cancel();
        }
        canceled
    }
}

impl Default for Token {
    /// A token with no deadline, as [`Token::new`] creates it.
    fn default() -> (token: Self)
        ensures
            token.deadline() is None,
    {
        Token::new()
    }
}

} // verus!

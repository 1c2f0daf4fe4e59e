//! A cooperative cancellation token.
//!
//! A [`Token`] lets one party ask a long-running operation to stop, and lets
//! the operation find out that it should: because somebody called
//! [`Token::cancel`], or because the token's deadline has passed. Nothing is
//! interrupted. The operation polls the token and stops by itself.
//!
//! ```
//! use cancel::{Canceled, Token};
//! use std::time::Duration;
//!
//! fn count_to(limit: u64, token: &Token) -> Result<u64, Canceled> {
//!     let mut count = 0;
//!     while count < limit {
//!         token.check_cancel()?;
//!         count += 1;
//!     }
//!     Ok(count)
//! }
//!
//! let token = Token::with_duration(Duration::from_secs(10));
//! assert_eq!(count_to(1000, &token).ok(), Some(1000));
//! token.cancel();
//! assert!(count_to(1000, &token).is_err());
//! ```
//!
//! The crate is in layers:
//!
//! * [`model`] is the mathematics: a token as a flag and a deadline on an
//!   integer time line, and what each operation does to them.
//! * [`laws`] proves what follows for every token and every history of
//!   operations.
//! * [`state`] is the same state machine in executable form, in the hands of
//!   one owner, with contracts that say exactly which step of the model each
//!   method takes.
//! * [`token`] keeps that state where threads can share it, the flag in an
//!   atomic, and takes the steps of the state machine on what it reads there
//!   and from the clock.
//! * [`clock`] says what is taken on trust about `std::time`, and [`error`]
//!   holds the error that a canceled token gives.

pub mod clock;
pub mod error;
pub mod laws;
pub mod model;
pub mod state;
pub mod token;

pub use error::Canceled;
pub use state::State;
pub use token::Token;

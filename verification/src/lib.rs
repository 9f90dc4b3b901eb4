//! A time-bounded poll: a question with named options, each option tracked by
//! an integer vote tally. Anyone may cast a vote for an existing option while
//! the poll is open; the poll owner may register new options, and the voting
//! window may be extended while the poll is still open.

pub mod account;
pub mod decisions;
pub mod error;
pub mod laws;
pub mod poll;
pub mod store;
pub mod window;

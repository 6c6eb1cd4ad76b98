//! Interactive-input and relative-time layer of a command-line tool.
//!
//! The crate offers three groups of operations:
//! - prompting: blocking write-then-read-one-line interactions with retry
//!   policies (`util::prompt_exact_len`, `util::prompt_nonzero_len`,
//!   `util::prompt_any_len`, `util::prompt_multiline`);
//! - relative-time parsing: a two-rule grammar over short phrases such as
//!   `now` or `in 4 weeks` (`util::parse_relative_time`);
//! - a closed taxonomy of termination causes, each with a rendered message
//!   and a process exit code (`Outcome`).

pub mod outcome;
pub mod util;

mod io_support;
mod reltime;
mod text;

pub use crate::outcome::Outcome;

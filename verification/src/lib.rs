//! Judging of compiler submissions: reference answers, output comparison,
//! verdicts, and the merging of a child process's output streams.

pub mod config;
pub mod decimal;
pub mod judge;
pub mod location;
pub mod multiplexer;
pub mod reference;
pub mod text;
pub mod uploads;
pub mod verdict;

//! A two-player rock-paper-scissors match over a single byte exchange:
//! the moves, the command line, the wire format and the rule that
//! decides each side's outcome.

pub mod moves;
pub mod outcome;
pub mod protocol;
pub mod args;

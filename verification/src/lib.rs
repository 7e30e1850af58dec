//! Game rules of a turn-based nuclear standoff between polities.
//!
//! The library holds the whole state of a match as plain values and
//! proves what every move does to it; the interactive shell around it
//! only parses commands, draws random numbers and prints.

pub mod faction;
pub mod arsenal;
pub mod ledger;
pub mod world;
pub mod aggression;
pub mod commands;
pub mod report;
pub mod laws;

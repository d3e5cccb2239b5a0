//! Turns the outcome of running a compiled program into its textual report,
//! and decides, stage by stage, whether a run may go on.

pub mod decimal;
pub mod field;
pub mod outcome;
pub mod report;
pub mod error;
pub mod program;
pub mod pipeline;

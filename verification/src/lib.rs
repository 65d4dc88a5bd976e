//! Download orchestration for a command-line video fetcher.
//!
//! The crate holds the decisions of one download run: which of the two
//! helper programs are missing, where the file goes and what it is called,
//! in which order the outside work happens, and what the operator is told
//! at the end. It looks for the programs and reads the clock by itself;
//! the rest of the outside work (reading the command line, creating
//! directories, driving the download engine) is done by the caller, which
//! hands the results back as plain values.

pub mod outcome;
pub mod output;
pub mod pipeline;
pub mod report;
pub mod runs;
pub mod text;
pub mod tools;

//! Decision core of a differential fuzzer for two virtual machines.
//!
//! Both machines run the same bytecode and print a JSON document that
//! describes how the run ended. From those documents this crate decides whether a
//! run explored something new and whether the two machines disagree.
//!
//! * [`output`] turns the raw bytes that a machine printed into an [`output::Output`].
//! * [`feedback`] keeps the instruction and operand type signatures seen so far;
//!   [`feedback::go_cover`] keeps the source locations covered so far.
//! * [`observer`] reads the coverage report of one run and drives the housekeeping
//!   of the counter directories.
//! * [`objective`] holds the rules by which two runs count as diverging.
pub mod feedback;
pub mod input;
pub mod json;
pub mod objective;
pub mod observer;
pub mod output;
pub mod report;

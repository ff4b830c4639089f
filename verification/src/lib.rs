//! Decision logic of a block-wise file copier with progress reporting.
//!
//! The library holds the rules of the tool as pure state machines and
//! functions over plain values. The program around it performs the reads,
//! writes, sleeps and prints that the machines ask for.

pub mod args;
pub mod copier;
pub mod driver;
pub mod meminfo;
pub mod model;
pub mod progress;
pub mod session;

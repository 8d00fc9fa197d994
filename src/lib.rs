//! Drives a Steam Workshop download tool: works out which application owns a
//! workshop item, builds the tool's command line, reads batch files of item
//! identifiers and steps through a batch one item at a time.
//!
//! All input arrives here as plain bytes and integers; the network, the
//! subprocess and the terminal belong to the binary around the library.

pub mod text;
pub mod batch;
pub mod invoke;
pub mod resolve;
pub mod item;
pub mod run;
pub mod cli;

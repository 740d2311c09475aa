//! A polling service: polls with a fixed list of options, one ballot per voter
//! and poll, and read-only answers about both.
//!
//! The library holds the rules. It never touches the key-value store itself:
//! every function takes the rows that were read for it and returns the rows
//! that are to be written.

pub mod contract;
pub mod error;
pub mod host;
pub mod msg;
pub mod state;
pub mod store;
pub mod tally;

//! What holds of the library's operations: laws that say, of what a call is
//! given and what it gives back, how the one relates to the other.

pub mod crates;
pub mod downloads;
pub mod git;
pub mod searching;
pub mod setup;
pub mod store;
pub mod tables;
pub mod written;

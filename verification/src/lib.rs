//! A crates.io mirror: the logic of downloading crates, storing them in an
//! object store, indexing them for search and following the crate index.

pub mod alike;
pub mod bos;
pub mod buffer;
pub mod clock;
pub mod crate_req;
pub mod digest;
pub mod easy_git;
pub mod elastic;
pub mod json;
pub mod krate;
pub mod laws;
pub mod schedule;
pub mod search;
pub mod status;
pub mod table;
pub mod text;
pub mod transfer;
pub mod weburl;

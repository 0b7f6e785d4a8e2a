//! The client side of the BOS object store: credentials, signing and requests.

pub mod bucket;
pub mod credentials;

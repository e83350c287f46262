//! A content-addressed media cache: locators are hashed to fixed-length keys,
//! entries are found by key prefix, and fetching is driven by a state machine
//! whose I/O is performed by the caller.

pub mod key;
pub mod extension;
pub mod store;
pub mod fetch;
pub mod session;

//! Key-value storage of a browser extension host, as plain data and verified
//! decisions: which host call a read or a write becomes, what a single-key read
//! hands on, how a change event reads, and a model of the host's storage areas
//! under which writes and reads are related.

pub mod error;
pub mod host;
pub mod storage;
pub mod utils;
pub mod value;

//! Planning and bookkeeping for a parallel, range-based file download.
//!
//! The crate holds the decisions of a downloader: how a resource is split into
//! byte ranges, what a response's headers say about it, where each received
//! chunk is written, how progress adds up, which outcome a set of finished
//! tasks amounts to, and what the output file is called where no name is
//! given. Network and file access are left to the caller.

pub mod error;
pub mod range;
pub mod partition;
pub mod decimal;
pub mod metadata;
pub mod progress;
pub mod fetch;
pub mod plan;
pub mod accounting;
pub mod coordinator;
pub mod url;
pub mod request;

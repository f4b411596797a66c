//! Client-side core of a remote binary-obfuscation service: resolution of a
//! declarative profile configuration against the backend's analysis result,
//! merging of backend-discovered macro groups, and the bounded-time state
//! machine that follows a submitted job.
pub mod config;
pub mod error;
pub mod resolve;
pub mod compile;
pub mod merge;
pub mod poller;
pub mod request;

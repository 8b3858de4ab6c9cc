//! Verified core of a video download-and-stream service.
//!
//! The library holds the decision logic of the service: version management
//! for the external downloader binary, discovery of the file a download run
//! produced, progress-tracked chunking of that file into stream events, and
//! the session pipeline that sequences those stages and guarantees cleanup.
//! All surrounding I/O (HTTP, the child process, the filesystem, the RPC
//! transport) lives outside the library and feeds it plain values.

pub mod errors;
pub mod pipeline;
pub mod service;
pub mod stream;
pub mod version;

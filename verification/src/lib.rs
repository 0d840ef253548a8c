//! Re-encode the file names stored inside a zip archive from a legacy
//! encoding to UTF-8.
//!
//! The archive is handled as plain bytes: callers read a file into memory,
//! hand the bytes to the conversion or listing routine, and write any
//! produced bytes back out.  The in-place rewrite is driven by the verified
//! protocol in `inplace`, whose rename-based backup keeps the original bytes
//! recoverable at every step.

pub mod archive;
pub mod backup;
pub mod convert;
pub mod encoding;
pub mod errors;
pub mod inplace;

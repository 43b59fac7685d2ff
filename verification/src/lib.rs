//! Batch conversion of camera RAW images (CR2) into JPEG files.
//!
//! The crate holds the decisions of a batch run: which paths are acceptable,
//! what to look for, which backend to try for a file and in what order, and
//! how the per-file outcomes add up to a summary. Everything that touches the
//! file system or a thread pool is left to the caller, which performs the
//! actions the state machines here ask for and reports back what happened.

pub mod converter;
pub mod discovery;
pub mod jpeg;
pub mod paths;
pub mod pipeline;
pub mod strategy;
pub mod summary;
pub mod validate;

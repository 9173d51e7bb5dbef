//! Verified core of a batch image-to-WebP converter.
//!
//! The library holds the orchestration logic: mapping input paths to mirrored
//! output paths, classifying convertible files, memoizing output-directory
//! creation, bounding the number of concurrently admitted conversion tasks,
//! decoding input bytes to a normalized RGBA pixel buffer, and aggregating
//! per-file outcomes into a batch result.  File and network I/O, the WebP
//! encoder, and the async runtime live outside the library.

pub mod admission;
pub mod classify;
pub mod convert;
pub mod handler;
pub mod memo;
pub mod outcome;
pub mod paths;

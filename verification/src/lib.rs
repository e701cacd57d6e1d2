//! Batch image transformation: the dimension policy, the per-item pipeline
//! (resize, palette quantization, PNG or WebP encoding, lossless recompression),
//! the reports it produces and the progress events of a batch.
//!
//! The library never touches the file system. A caller probes, reads and writes
//! files and hands the outcomes to [`job::Job`], which decides what happens next.

pub mod batch;
pub mod codec;
pub mod dimensions;
pub mod failure;
pub mod job;
pub mod operations;
pub mod options;
pub mod paths;
pub mod pipeline;
pub mod report;
pub mod text;


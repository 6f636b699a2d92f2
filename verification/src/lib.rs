//! A verified engine for IFF/RIFF-style chunked container formats: a cursor
//! over an addressable byte source, typed big- and little-endian reads, a
//! nesting-depth tracker, and a parse loop that enforces agreement between
//! each chunk's declared size and the cursor movement its body caused.

pub mod bodies;
pub mod codec;
pub mod engine;
pub mod error;
pub mod iff;
pub mod parser;
pub mod reader;
pub mod scan;

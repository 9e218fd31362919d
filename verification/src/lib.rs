//! Transparent compression and decompression dispatch for byte streams.
//!
//! The leading bytes of a stream identify its compression container
//! (gzip, bzip2, xz/lzma, zstd); this crate classifies those magic
//! numbers, replays the peeked prefix so the stream is unchanged, and
//! hands the data to the matching codec.

pub mod basic;
pub mod compression;
pub mod error;
pub mod level;
pub mod seek;
pub mod seeksend;
pub mod send;
pub mod types;
pub mod utils;

pub use crate::basic::compression::Codecs;
pub use crate::basic::compression::Format;
pub use crate::basic::get_reader;
pub use crate::basic::get_reader_with;
pub use crate::basic::get_writer;
pub use crate::basic::get_writer_with;
pub use crate::basic::sniff;
pub use crate::error::Error;
pub use crate::level::Level;

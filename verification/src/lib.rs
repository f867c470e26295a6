//! Incremental bzip2 compression and decompression.
//!
//! A session wraps one direction of a bzip2 stream.  The caller pushes
//! input in chunks of any size and gets back what output there is, without
//! ever holding the whole payload in memory:
//!
//! * [`BZ2Compressor`] takes raw bytes through `compress` and ends the
//!   stream with a single `flush`;
//! * [`BZ2Decompressor`] takes compressed bytes through `decompress`, can
//!   bound the output of each call, says when it needs more input, notices
//!   the end of the stream and keeps what follows it as unused data.
//!
//! The block codec itself is the `bzip2` crate.  The module `codec` states
//! what is taken on trust of it; everything else is proved against that.

pub mod codec;
pub mod compressor;
pub mod decompressor;
pub mod drain;
pub mod error;
pub mod laws;
pub mod module;

pub use compressor::BZ2Compressor;
pub use decompressor::BZ2Decompressor;
pub use error::Bz2Error;
pub use module::make_module;

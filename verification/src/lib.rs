//! One-shot Brotli compression and decompression of in-memory buffers, with
//! UTF-8 text helpers on top.
//!
//! Every call is self-contained: it builds a fresh sink, runs the whole input
//! through it, closes it and hands back an owned buffer. Nothing is kept
//! between calls.
//!
//! * [`codec`] holds the byte-level operations and their contracts.
//! * [`text`] converts between text and bytes and chains the codec.
//! * [`laws`] states what holds across calls: determinism, the meaning of
//!   absent settings, and that text survives the trip through its bytes.
//! * [`boundary`] is the only unverified part: the calls into the `brotli`
//!   crate and into `std`'s lossy UTF-8 decoder, each with the contract that
//!   the rest of the library is proved against.

pub mod boundary;
pub mod codec;
pub mod laws;
pub mod text;

pub use codec::{brotli_compress, brotli_decompress, CodecError};
pub use text::{
    brotli_compress_string, bytes_to_string, gbrotli_decompress_string, string_to_bytes,
};

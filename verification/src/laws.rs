//! What holds across calls.
//!
//! Each law speaks of what the operations return through the predicates that
//! their own contracts are written with, so it holds of every call that meets
//! its contract. The contracts of the codec rest on what [`crate::boundary`]
//! claims of the encoder and the decoder; the laws are proved from there.
//!
//! That decompression undoes compression is not among them: it is a property
//! of the encoder and the decoder that nothing here can prove, and it does not
//! hold of a stream too long for the decoder to take.

use crate::codec::{compress_returns, decompress_returns, CodecError};
use crate::text::{decompress_string_returns, is_lossy_text_of};
use vstd::prelude::*;
use vstd::utf8::{encode_utf8, encode_utf8_decode_utf8, encode_utf8_valid_utf8};

verus! {

/// Reading the UTF-8 encoding of a text gives the text back unchanged: no
/// character is replaced.
pub proof fn text_survives_bytes(text: Seq<char>, back: Seq<char>)
    requires
        is_lossy_text_of(back, encode_utf8(text)),
    ensures
        back == text,
{
    encode_utf8_valid_utf8(text);
    encode_utf8_decode_utf8(text);
}

/// The text adapter loses nothing of its own: where decompression returns
/// the UTF-8 encoding of `text`, decompression to text returns `text`.
pub proof fn text_follows_bytes(text: Seq<char>, stream: Seq<u8>, restored: Option<Seq<char>>)
    requires
        decompress_returns(stream, Some(encode_utf8(text))),
        decompress_string_returns(stream, restored),
    ensures
        restored == Some(text),
{
    text_survives_bytes(text, restored->0);
}

/// Compression is deterministic: two calls on the same data with the same
/// settings return the same outcome, byte for byte.
pub proof fn compression_is_deterministic(
    data: Seq<u8>,
    quality: Option<u32>,
    lg_window: Option<u32>,
    first: Result<Seq<u8>, CodecError>,
    second: Result<Seq<u8>, CodecError>,
)
    requires
        compress_returns(data, quality, lg_window, first),
        compress_returns(data, quality, lg_window, second),
    ensures
        first == second,
{
}

/// Absent settings mean quality 8 and window size 21: a call that gives
/// neither returns what a call that gives both returns.
pub proof fn absent_settings_are_the_defaults(
    data: Seq<u8>,
    absent: Result<Seq<u8>, CodecError>,
    given: Result<Seq<u8>, CodecError>,
)
    requires
        compress_returns(data, None, None, absent),
        compress_returns(data, Some(8), Some(21), given),
    ensures
        absent == given,
{
}

/// A failed decompression stays failed, and a payload stays the same:
/// two calls on the same bytes return the same result.
pub proof fn decompression_is_repeatable(
    stream: Seq<u8>,
    first: Option<Seq<u8>>,
    second: Option<Seq<u8>>,
)
    requires
        decompress_returns(stream, first),
        decompress_returns(stream, second),
    ensures
        first == second,
{
}

} // verus!

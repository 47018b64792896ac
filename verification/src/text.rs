//! The text adapter: UTF-8 text to bytes and back, and the codec on text.

use crate::boundary::lossy_utf8;
use crate::codec::{
    brotli_compress, brotli_decompress, compress_returns, decoder_output, stream_of, CodecError,
};
use vstd::prelude::*;
use vstd::slice::slice_to_vec;
use vstd::utf8::{
    decode_utf8, encode_utf8, encode_utf8_decode_utf8, encode_utf8_valid_utf8, valid_utf8,
};

verus! {

/// The character that stands in for bytes that are not UTF-8.
pub const REPLACEMENT: char = '\u{FFFD}';

/// `text` is the lossy reading of `bytes` as UTF-8.
///
/// Valid UTF-8 reads as the characters it encodes. Anything else reads as a
/// repaired text that holds [`REPLACEMENT`] at least once.
pub open spec fn is_lossy_text_of(text: Seq<char>, bytes: Seq<u8>) -> bool {
    &&& text == lossy_utf8(bytes)
    &&& (valid_utf8(bytes) ==> text == decode_utf8(bytes))
    &&& (!valid_utf8(bytes) ==> text.contains(REPLACEMENT))
}

/// The characters of a decompressed text.
pub open spec fn text_of(result: Option<String>) -> Option<Seq<char>> {
    match result {
        Some(text) => Some(text@),
        None => None,
    }
}

/// `outcome` is what compressing `text` under the given settings returns:
/// what compressing its UTF-8 encoding returns.
pub open spec fn compress_string_returns(
    text: Seq<char>,
    quality: Option<u32>,
    lg_window: Option<u32>,
    outcome: Result<Seq<u8>, CodecError>,
) -> bool {
    compress_returns(encode_utf8(text), quality, lg_window, outcome)
}

/// `result` is what decompressing `stream` to text returns: the lossy reading
/// of the payload, and nothing where the stream has no payload.
pub open spec fn decompress_string_returns(stream: Seq<u8>, result: Option<Seq<char>>) -> bool {
    match decoder_output(stream) {
        Some(payload) => result is Some && is_lossy_text_of(result->0, payload),
        None => result is None,
    }
}

/// The UTF-8 encoding of `input`, as an owned buffer. Never fails.
pub fn string_to_bytes(input: &str) -> (bytes: Vec<u8>)
    ensures
        bytes@ == encode_utf8(input@),
        valid_utf8(bytes@),
        decode_utf8(bytes@) == input@,
{
    proof {
        encode_utf8_valid_utf8(input@);
        encode_utf8_decode_utf8(input@);
    }
    slice_to_vec(input.as_bytes())
}

/// Reads `input` as UTF-8, replacing what is not. Never fails.
pub fn bytes_to_string(input: &[u8]) -> (text: String)
    ensures
        is_lossy_text_of(text@, input@),
{
    match String::from_utf8_lossy(input) {
        std::borrow::Cow::Borrowed(kept) => kept.to_owned(),
        std::borrow::Cow::Owned(repaired) => repaired,
    }
}

/// Compresses the UTF-8 encoding of `string`; see [`brotli_compress`].
pub fn brotli_compress_string(
    string: &str,
    quality: Option<u32>,
    lg_window: Option<u32>,
) -> (outcome: Result<Vec<u8>, CodecError>)
    ensures
        compress_string_returns(string@, quality, lg_window, stream_of(outcome)),
{
    brotli_compress(string.as_bytes(), quality, lg_window)
}

/// Decompresses `data` and reads the payload as text; see
/// [`brotli_decompress`] and [`bytes_to_string`].
pub fn gbrotli_decompress_string(data: &[u8]) -> (result: Option<String>)
    ensures
        decompress_string_returns(data@, text_of(result)),
{
    match brotli_decompress(data) {
        Some(decoded) => Some(bytes_to_string(decoded.as_slice())),
        None => None,
    }
}

} // verus!

//! The codec: whole-buffer Brotli compression and decompression.

use crate::boundary::{brotli_decoding, brotli_encoding, run_decoder, run_encoder};
use vstd::prelude::*;

verus! {

/// The quality used where the caller gives none.
pub const DEFAULT_QUALITY: u32 = 8;

/// The window size, as a base-2 logarithm, used where the caller gives none.
pub const DEFAULT_LG_WINDOW: u32 = 21;

/// Size in bytes of the staging buffer of every sink.
pub const SINK_BUFFER_BYTES: usize = 4096;

/// Why a compression call gave no stream.
#[derive(Debug, Clone, Copy, PartialEq, Eq, Structural)]
pub enum CodecError {
    /// Copying the input into the compressing sink reported an I/O error.
    InternalIo,
}

/// The quality a call runs with.
pub open spec fn effective_quality(quality: Option<u32>) -> u32 {
    match quality {
        Some(given) => given,
        None => DEFAULT_QUALITY,
    }
}

/// The window size a call runs with.
pub open spec fn effective_lg_window(lg_window: Option<u32>) -> u32 {
    match lg_window {
        Some(given) => given,
        None => DEFAULT_LG_WINDOW,
    }
}

/// What the encoder makes of `data` under the given settings: the stream, or
/// `None` where the sink refuses the copy.
pub open spec fn encoder_output(
    data: Seq<u8>,
    quality: Option<u32>,
    lg_window: Option<u32>,
) -> Option<Seq<u8>> {
    brotli_encoding(
        data,
        SINK_BUFFER_BYTES,
        effective_quality(quality),
        effective_lg_window(lg_window),
    )
}

/// What the decoder makes of `stream`: the payload, or `None` where the
/// bytes are not exactly one complete Brotli stream.
pub open spec fn decoder_output(stream: Seq<u8>) -> Option<Seq<u8>> {
    brotli_decoding(stream, SINK_BUFFER_BYTES)
}

/// The bytes of a compression outcome.
pub open spec fn stream_of(outcome: Result<Vec<u8>, CodecError>) -> Result<Seq<u8>, CodecError> {
    match outcome {
        Ok(stream) => Ok(stream@),
        Err(fault) => Err(fault),
    }
}

/// The bytes of a decompression result.
pub open spec fn payload_of(result: Option<Vec<u8>>) -> Option<Seq<u8>> {
    match result {
        Some(payload) => Some(payload@),
        None => None,
    }
}

/// `outcome` is what compressing `data` under the given settings returns.
///
/// A stream is the encoder's output for exactly these inputs. A fault is
/// always [`CodecError::InternalIo`], and comes exactly where the encoder has
/// no output.
pub open spec fn compress_returns(
    data: Seq<u8>,
    quality: Option<u32>,
    lg_window: Option<u32>,
    outcome: Result<Seq<u8>, CodecError>,
) -> bool {
    match outcome {
        Ok(stream) => encoder_output(data, quality, lg_window) == Some(stream),
        Err(fault) => {
            &&& fault == CodecError::InternalIo
            &&& encoder_output(data, quality, lg_window) is None
        },
    }
}

/// `result` is what decompressing `stream` returns.
pub open spec fn decompress_returns(stream: Seq<u8>, result: Option<Seq<u8>>) -> bool {
    result == decoder_output(stream)
}

/// Turns the outcome of the copy into the compressing sink into the outcome
/// of the call: the stream as it is, and any I/O error as
/// [`CodecError::InternalIo`].
pub fn stream_or_fault(copied: Result<Vec<u8>, std::io::Error>) -> (outcome: Result<
    Vec<u8>,
    CodecError,
>)
    ensures
        outcome == (match copied {
            Ok(stream) => Ok::<Vec<u8>, CodecError>(stream),
            Err(_) => Err(CodecError::InternalIo),
        }),
{
    match copied {
        Ok(stream) => Ok(stream),
        Err(_) => Err(CodecError::InternalIo),
    }
}

/// Turns the outcome of copying into and closing the decompressing sink into
/// the result of the call: the payload of a stream that ended as it should,
/// and nothing for a refused copy or an unfinished stream. What an unfinished
/// stream had produced so far is dropped: there is no partial result.
pub fn payload_or_nothing(closed: Result<Result<Vec<u8>, Vec<u8>>, std::io::Error>) -> (result:
    Option<Vec<u8>>)
    ensures
        result == (match closed {
            Ok(Ok(payload)) => Some(payload),
            Ok(Err(_)) => None,
            Err(_) => None,
        }),
{
    match closed {
        Ok(Ok(payload)) => Some(payload),
        Ok(Err(_)) => None,
        Err(_) => None,
    }
}

/// Compresses `data` with Brotli.
///
/// `quality` defaults to [`DEFAULT_QUALITY`] and `lg_window` to
/// [`DEFAULT_LG_WINDOW`]. Neither is checked here: both go to the encoder as
/// given, and the encoder clamps what it does not support (quality to 0..=11,
/// window size to 10..=24).
///
/// The stream that comes back is the encoder's output for exactly these
/// inputs. That [`brotli_decompress`] takes it back to `data` is the
/// encoder's and the decoder's business and is not part of this contract. The
/// only error is [`CodecError::InternalIo`], for a copy into the sink that
/// failed; an in-memory sink is not known to fail, but nothing here rules it
/// out.
pub fn brotli_compress(
    data: &[u8],
    quality: Option<u32>,
    lg_window: Option<u32>,
) -> (outcome: Result<Vec<u8>, CodecError>)
    ensures
        compress_returns(data@, quality, lg_window, stream_of(outcome)),
{
    let copied = run_encoder(
        data,
        SINK_BUFFER_BYTES,
        quality.unwrap_or(DEFAULT_QUALITY),
        lg_window.unwrap_or(DEFAULT_LG_WINDOW),
    );
    stream_or_fault(copied)
}

/// Decompresses a Brotli stream, all or nothing.
///
/// Input that is not exactly one complete Brotli stream (cut short, corrupt,
/// empty, or followed by further bytes) is an ordinary outcome: the result is
/// `None`, and what the decoder had produced up to there is dropped.
///
/// The whole input is handed to the decoder at once, and the decoder takes no
/// more than `u32::MAX` bytes in one piece: a stream longer than that gives
/// `None` even where it is well formed.
pub fn brotli_decompress(data: &[u8]) -> (result: Option<Vec<u8>>)
    ensures
        decompress_returns(data@, payload_of(result)),
{
    let closed = run_decoder(data, SINK_BUFFER_BYTES);
    payload_or_nothing(closed)
}

} // verus!

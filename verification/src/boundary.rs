//! The unverified edge of the library.
//!
//! Everything in this file is believed, not proved. The contracts here say
//! what the rest of the library assumes of the `brotli` crate and of `std`'s
//! lossy UTF-8 decoder; each doc comment names the outside function and what is
//! claimed of it.

use vstd::prelude::*;
use vstd::utf8::{decode_utf8, valid_utf8};

verus! {

/// `std::io::Error`, carried through without looking inside.
#[verifier::external_type_specification]
#[verifier::external_body]
pub struct ExIoError(std::io::Error);

/// The stream that a fresh `brotli::CompressorWriter` over an empty `Vec`
/// holds once `data` has been copied into it and it has been closed, or `None`
/// where the copy reports an error. The encoder keeps no state between sinks
/// and draws on no clock, seed or thread, and the crate is built with its
/// table-driven logarithms (`portable-float`) in place of the platform's, so
/// the bytes depend on the arguments alone, on every target.
pub uninterp spec fn brotli_encoding(
    data: Seq<u8>,
    buffer_size: usize,
    quality: u32,
    lg_window: u32,
) -> Option<Seq<u8>>;

/// The payload that a fresh `brotli::DecompressorWriter` over an empty `Vec`
/// holds once `stream` has been copied into it and it has been closed, or
/// `None` where the copy or the close reports a failure.
pub uninterp spec fn brotli_decoding(stream: Seq<u8>, buffer_size: usize) -> Option<Seq<u8>>;

/// Runs `data` through `brotli::CompressorWriter`: `new` over an empty `Vec`,
/// `std::io::copy` of the whole input, then `into_inner`, which finishes the
/// stream.
///
/// Claimed of the outside code:
/// * short of running out of memory, it returns for every `data`, `quality`
///   and `lg_window` (the encoder clamps both settings into the ranges it
///   supports before use);
/// * a successful copy yields the stream named by [`brotli_encoding`].
///
/// Nothing is claimed of what the decoder makes of that stream. The buffer
/// size is held to the one value the library uses.
#[verifier::external_body]
pub(crate) fn run_encoder(data: &[u8], buffer_size: usize, quality: u32, lg_window: u32) -> (copied:
    Result<Vec<u8>, std::io::Error>)
    requires
        buffer_size == 4096,
    ensures
        match copied {
            Ok(stream) => brotli_encoding(data@, buffer_size, quality, lg_window) == Some(stream@),
            Err(_) => brotli_encoding(data@, buffer_size, quality, lg_window) is None,
        },
{
    let mut source = data;
    let mut sink = brotli::CompressorWriter::new(Vec::new(), buffer_size, quality, lg_window);
    match std::io::copy(&mut source, &mut sink) {
        Ok(_) => Ok(sink.into_inner()),
        Err(fault) => Err(fault),
    }
}

/// Runs `stream` through `brotli::DecompressorWriter`: `new` over an empty
/// `Vec`, `std::io::copy` of the whole input, then `into_inner`, which closes
/// the decoder and gives the `Vec` back as `Ok` when the stream was complete
/// and as `Err` when it was not.
///
/// Claimed of the outside code: short of running out of memory, it returns
/// for every `stream`, and a complete stream yields the payload named by
/// [`brotli_decoding`]. A copy that the decoder refuses and a close that finds
/// the stream unfinished are both failures, and for both the name is `None`.
/// The decoder refuses any single write of more than `u32::MAX` bytes, so the
/// name is not promised to be `Some` for every stream the encoder can write.
#[verifier::external_body]
pub(crate) fn run_decoder(stream: &[u8], buffer_size: usize) -> (closed: Result<
    Result<Vec<u8>, Vec<u8>>,
    std::io::Error,
>)
    requires
        buffer_size == 4096,
    ensures
        match closed {
            Ok(Ok(payload)) => brotli_decoding(stream@, buffer_size) == Some(payload@),
            Ok(Err(_)) => brotli_decoding(stream@, buffer_size) is None,
            Err(_) => brotli_decoding(stream@, buffer_size) is None,
        },
{
    let mut source = stream;
    let mut sink = brotli::DecompressorWriter::new(Vec::new(), buffer_size);
    match std::io::copy(&mut source, &mut sink) {
        Ok(_) => Ok(sink.into_inner()),
        Err(fault) => Err(fault),
    }
}

/// The text that `String::from_utf8_lossy` makes of `bytes`. Where the bytes
/// are not valid UTF-8 the repaired text is left unnamed beyond what the
/// function below says of it.
pub uninterp spec fn lossy_utf8(bytes: Seq<u8>) -> Seq<char>;

/// `String::from_utf8_lossy`, as `std` documents it: valid UTF-8 is decoded as
/// it stands, and in anything else each invalid sequence is replaced by
/// U+FFFD, so the text of an invalid input holds that character at least once.
/// The function is total.
pub assume_specification<'a>[ String::from_utf8_lossy ](v: &'a [u8]) -> (text: std::borrow::Cow<
    'a,
    str,
>)
    ensures
        text@ == lossy_utf8(v@),
        valid_utf8(v@) ==> text@ == decode_utf8(v@),
        !valid_utf8(v@) ==> text@.contains('\u{FFFD}'),
;

} // verus!

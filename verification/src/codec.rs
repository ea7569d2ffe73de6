//! Decoding of the embedded payload: whole-buffer brotli decompression behind
//! a trusted wrapper whose result is named by an uninterpreted spec function,
//! UTF-8 decoding behind a trusted wrapper specified by vstd's UTF-8 model,
//! and a verified function that composes the two.

use vstd::prelude::*;
use vstd::utf8::{decode_utf8, valid_utf8};

verus! {

/// The result of whole-buffer brotli decompression: `Some` of the decompressed
/// bytes when `c` is a well-formed brotli stream, `None` otherwise. The
/// decompressed bytes are a function of the compressed bytes alone.
pub uninterp spec fn brotli_inflate(c: Seq<u8>) -> Option<Seq<u8>>;

/// What decoding an embedded payload yields: the UTF-8 text of its brotli
/// decompression, or nothing when the stream is malformed or its
/// decompression is not valid UTF-8.
pub open spec fn decoded_payload(c: Seq<u8>) -> Option<Seq<char>> {
    match brotli_inflate(c) {
        Some(b) => if valid_utf8(b) {
            Some(decode_utf8(b))
        } else {
            None
        },
        None => None,
    }
}

/// The one failure kind: the payload is not a well-formed brotli stream, or
/// its decompression is not valid UTF-8. The payload is a build-time
/// invariant, so this marks a build defect, not a recoverable condition.
#[derive(Clone, Copy, Debug, PartialEq, Eq, Structural)]
pub enum GeoError {
    CorruptPayload,
}

/// Relies on brotli_decompressor::BrotliDecompress: it decompresses the whole
/// in-memory stream into the writer and reports failure as `Err`; on an
/// in-memory reader and writer the outcome depends on the compressed bytes
/// alone.
#[verifier::external_body]
fn brotli_decompress(compressed: &[u8]) -> (r: Option<Vec<u8>>)
    ensures
        r is Some <==> brotli_inflate(compressed@) is Some,
        r matches Some(b) ==> Some(b@) == brotli_inflate(compressed@),
{
    let mut decompressed = Vec::new();
    let mut reader = std::io::Cursor::new(compressed);
    match brotli_decompressor::BrotliDecompress(&mut reader, &mut decompressed) {
        Ok(()) => Some(decompressed),
        Err(_) => None,
    }
}

/// Relies on String::from_utf8: it returns the string holding the given bytes
/// exactly when they are valid UTF-8, and an error otherwise.
#[verifier::external_body]
fn utf8_to_string(bytes: Vec<u8>) -> (r: Option<String>)
    ensures
        r is Some <==> valid_utf8(bytes@),
        r matches Some(s) ==> s@ == decode_utf8(bytes@),
{
    match String::from_utf8(bytes) {
        Ok(s) => Some(s),
        Err(_) => None,
    }
}

/// Decode a compressed payload into its text: brotli decompression, then
/// UTF-8 decoding. Succeeds exactly when both steps do; any failure is
/// reported as the one fatal error kind, never as partial or substitute data.
pub fn decode_payload(compressed: &[u8]) -> (r: Result<String, GeoError>)
    ensures
        r is Ok <==> decoded_payload(compressed@) is Some,
        r matches Ok(s) ==> Some(s@) == decoded_payload(compressed@),
        r matches Err(e) ==> e == GeoError::CorruptPayload,
{
    match brotli_decompress(compressed) {
        Some(bytes) => match utf8_to_string(bytes) {
            Some(text) => Ok(text),
            None => Err(GeoError::CorruptPayload),
        },
        None => Err(GeoError::CorruptPayload),
    }
}

} // verus!

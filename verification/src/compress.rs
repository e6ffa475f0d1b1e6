//! Decompression of compressed section payloads, and the errors a section
//! read can end in.

use vstd::prelude::*;

verus! {

/// What can go wrong while reading one section. A missing section is not an
/// error; it reads as empty.
#[derive(Clone, Copy, PartialEq, Eq, Structural, Debug)]
pub enum Error {
    /// The compression header carried a method tag that is neither zlib nor
    /// zstd; the tag is kept.
    UnknownCompressionMethod(u32),
    /// The payload was rejected by the decompressor, or the section is too
    /// short to hold its own compression header.
    DecompressionError,
}

/// What zlib inflation makes of `payload`: the inflated bytes, or `None`
/// where the payload is rejected. A function of the payload alone.
pub uninterp spec fn zlib_inflated(payload: Seq<u8>) -> Option<Seq<u8>>;

/// What zstd decoding makes of `payload`: the decoded bytes, or `None` where
/// the payload is rejected. A function of the payload alone.
pub uninterp spec fn zstd_decoded(payload: Seq<u8>) -> Option<Seq<u8>>;

/// Relies on miniz_oxide::inflate::decompress_to_vec_zlib: inflates a
/// zlib-framed payload, or rejects it; the outcome depends on the payload
/// bytes alone.
#[verifier::external_body]
fn zlib_inflate(payload: &Vec<u8>) -> (r: Option<Vec<u8>>)
    ensures
        match r {
            Some(v) => zlib_inflated(payload@) == Some(v@),
            None => zlib_inflated(payload@) is None,
        },
{
    miniz_oxide::inflate::decompress_to_vec_zlib(payload.as_slice()).ok()
}

/// Relies on zstd::decode_all: decodes a zstd-framed payload, or rejects it;
/// the outcome depends on the payload bytes alone.
#[verifier::external_body]
fn zstd_decode(payload: &Vec<u8>) -> (r: Option<Vec<u8>>)
    ensures
        match r {
            Some(v) => zstd_decoded(payload@) == Some(v@),
            None => zstd_decoded(payload@) is None,
        },
{
    zstd::decode_all(payload.as_slice()).ok()
}

/// Decompresses `payload` per the compression-method `tag` of its section's
/// compression header: `1` is zlib, `2` is zstd, anything else is an error
/// that carries the tag.
pub fn decompress_payload(tag: u32, payload: &Vec<u8>) -> (r: Result<Vec<u8>, Error>)
    ensures
        tag == 1 ==> match r {
            Ok(v) => zlib_inflated(payload@) == Some(v@),
            Err(e) => zlib_inflated(payload@) is None && e == Error::DecompressionError,
        },
        tag == 2 ==> match r {
            Ok(v) => zstd_decoded(payload@) == Some(v@),
            Err(e) => zstd_decoded(payload@) is None && e == Error::DecompressionError,
        },
        tag != 1 && tag != 2 ==> r == Err::<Vec<u8>, Error>(Error::UnknownCompressionMethod(tag)),
{
    match tag {
        1 => match zlib_inflate(payload) {
            Some(v) => Ok(v),
            None => Err(Error::DecompressionError),
        },
        2 => match zstd_decode(payload) {
            Some(v) => Ok(v),
            None => Err(Error::DecompressionError),
        },
        x => Err(Error::UnknownCompressionMethod(x)),
    }
}

} // verus!

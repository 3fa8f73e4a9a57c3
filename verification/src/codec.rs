//! The two decompressors that the chat socket's nested packets need.

use vstd::prelude::*;

verus! {

/// What reading `data` to its end as a zlib stream yields, or `None` where
/// that read fails.
pub uninterp spec fn zlib_inflated(data: Seq<u8>) -> Option<Seq<u8>>;

/// What reading `data` to its end as a Brotli stream yields, or `None`
/// where that read fails.
pub uninterp spec fn brotli_inflated(data: Seq<u8>) -> Option<Seq<u8>>;

/// The bytes of an optional vector.
pub open spec fn opt_bytes(v: Option<Vec<u8>>) -> Option<Seq<u8>> {
    match v {
        Some(bytes) => Some(bytes@),
        None => None,
    }
}

/// Reads `data` to its end through `flate2::read::ZlibDecoder`. The
/// contract names what comes out as a function of `data`; a read that fails
/// gives `None`.
#[verifier::external_body]
pub(crate) fn decompress_zlib(data: &[u8]) -> (r: Option<Vec<u8>>)
    ensures
        opt_bytes(r) == zlib_inflated(data@),
{
    let mut output = Vec::new();
    let mut decoder = flate2::read::ZlibDecoder::new(data);
    match std::io::Read::read_to_end(&mut decoder, &mut output) {
        Ok(_) => Some(output),
        Err(_) => None,
    }
}

/// Reads `data` to its end through `brotli::Decompressor` with a 4096-byte
/// buffer. The contract names what comes out as a function of `data`; a read
/// that fails gives `None`.
#[verifier::external_body]
pub(crate) fn decompress_brotli(data: &[u8]) -> (r: Option<Vec<u8>>)
    ensures
        opt_bytes(r) == brotli_inflated(data@),
{
    let mut output = Vec::new();
    let mut decoder = brotli::Decompressor::new(data, 4096);
    match std::io::Read::read_to_end(&mut decoder, &mut output) {
        Ok(_) => Some(output),
        Err(_) => None,
    }
}

} // verus!

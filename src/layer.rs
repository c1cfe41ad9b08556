//! Layer blobs: gzip-compressed tar archives.
use vstd::prelude::*;
use std::io::Read;

verus! {

/// The bytes that gzip decoding of `blob` yields, or `None` when `blob` is
/// not a valid gzip stream.
pub uninterp spec fn gunzip_of(blob: Seq<u8>) -> Option<Seq<u8>>;

/// Relies on `flate2::read::GzDecoder` read to the end: the outcome depends
/// on the input bytes alone.
#[verifier::external_body]
fn gunzip(blob: &[u8]) -> (r: Option<Vec<u8>>)
    ensures
        r is None <==> gunzip_of(blob@) is None,
        r matches Some(v) ==> gunzip_of(blob@) == Some(v@),
{
    let mut out = Vec::new();
    match flate2::read::GzDecoder::new(blob).read_to_end(&mut out) {
        Ok(_) => Some(out),
        Err(_) => None,
    }
}

/// Decompresses a layer blob into the tar archive it carries.
pub fn decode_layer(blob: &Vec<u8>) -> (r: Result<Vec<u8>, crate::failure::Failure>)
    ensures
        r is Err <==> gunzip_of(blob@) is None,
        r matches Err(e) ==> e == crate::failure::Failure::Extraction,
        r matches Ok(v) ==> gunzip_of(blob@) == Some(v@),
{
    match gunzip(blob.as_slice()) {
        Some(v) => Ok(v),
        None => Err(crate::failure::Failure::Extraction),
    }
}

} // verus!

//! The gzip half of the storage pipeline. Gzip runs before encryption,
//! because ciphertext is incompressible, and only on payloads that are not
//! already a compressed container.

use vstd::prelude::*;

use crate::error::CoreError;
use crate::file::{compression_plan, dense_type};

verus! {

/// The gzip stream `flate2` writes for `content` at the default level, with
/// the default header: no file name, no comment, no timestamp.
pub uninterp spec fn gzipped(content: Seq<u8>) -> Seq<u8>;

/// What `flate2` decodes from a single-member gzip stream, `None` when the
/// bytes are not one.
pub uninterp spec fn gunzipped(data: Seq<u8>) -> Option<Seq<u8>>;

/// `flate2::write::GzEncoder` at `Compression::default()`, writing into a
/// `Vec`: whatever it returns is the stream named [`gzipped`] of `content`,
/// which `GzDecoder` decodes back to `content`. It always succeeds: a `Vec`
/// never refuses a write, and with the default level the miniz_oxide backend
/// reports a full output buffer as a status, not an error; its other errors
/// need parameters this call never passes.
#[verifier::external_body]
fn gzip_encode(content: &[u8]) -> (r: Option<Vec<u8>>)
    ensures
        r is Some,
        r matches Some(b) ==> b@ == gzipped(content@),
        r matches Some(b) ==> gunzipped(b@) == Some(content@),
{
    let mut encoder = flate2::write::GzEncoder::new(Vec::new(), flate2::Compression::default());
    match std::io::Write::write_all(&mut encoder, content) {
        Ok(()) => encoder.finish().ok(),
        Err(_) => None,
    }
}

/// `flate2::read::GzDecoder` read to its end: the bytes named [`gunzipped`]
/// of `data`, and `None` exactly when that is `None`. A stream the encoder
/// wrote for some content decodes to that content, which is what the gzip
/// format is for.
#[verifier::external_body]
fn gzip_decode(data: &[u8]) -> (r: Option<Vec<u8>>)
    ensures
        r is Some <==> gunzipped(data@) is Some,
        r matches Some(b) ==> gunzipped(data@) == Some(b@),
        r is None ==> forall|p: Seq<u8>| data@ != #[trigger] gzipped(p),
        r matches Some(q) ==> forall|p: Seq<u8>| data@ == #[trigger] gzipped(p) ==> q@ == p,
{
    let mut decoded = Vec::new();
    match std::io::Read::read_to_end(&mut flate2::read::GzDecoder::new(data), &mut decoded) {
        Ok(_) => Some(decoded),
        Err(_) => None,
    }
}

/// A payload after the compression half of the pipeline.
#[derive(Debug)]
pub struct Compressed {
    pub bytes: Vec<u8>,
    /// Whether gzip was applied, which the download path has to reverse.
    pub gzipped: bool,
}

/// The bytes stored for a payload, before encryption: gzipped or not.
pub open spec fn stored_form(content: Seq<u8>, gzip: bool) -> Seq<u8> {
    if gzip {
        gzipped(content)
    } else {
        content
    }
}

/// Gzips a payload unless its type is already a compressed container, and
/// says which was done. For an image, `content` is what the lossy image pass
/// made of the upload: that pass belongs to the image compressor.
///
/// It always succeeds.
pub fn compress_for_storage(content: Vec<u8>, mime_type: &str) -> (r: Result<Compressed, CoreError>)
    ensures
        r matches Ok(c) && c.gzipped == !dense_type(mime_type@) && c.bytes@ == stored_form(
            content@,
            c.gzipped,
        ),
        r matches Ok(c) ==> (c.gzipped ==> gunzipped(c.bytes@) == Some(content@)),
{
    let plan = compression_plan(mime_type);
    if !plan.gzip {
        return Ok(Compressed { bytes: content, gzipped: false });
    }
    match gzip_encode(content.as_slice()) {
        Some(bytes) => Ok(Compressed { bytes, gzipped: true }),
        None => Err(CoreError::Compression),
    }
}

/// Decodes a gzip stream. What [`compress_for_storage`] gzipped comes back as
/// the bytes it was given.
pub fn gunzip(data: &[u8]) -> (r: Result<Vec<u8>, CoreError>)
    ensures
        match r {
            Ok(b) => gunzipped(data@) == Some(b@),
            Err(e) => e is Compression && gunzipped(data@) is None,
        },
        forall|p: Seq<u8>| data@ == #[trigger] gzipped(p) ==> (r matches Ok(b) && b@ == p),
{
    match gzip_decode(data) {
        Some(b) => Ok(b),
        None => Err(CoreError::Compression),
    }
}

} // verus!

//! Preview derivation: a pure transform from the bytes of an uploaded image
//! to the bytes of a fixed-size PNG preview.
//!
//! The transform fails exactly when the source bytes cannot be handled as an
//! image; that failure is terminal for the upload that carried them.

use vstd::prelude::*;

use crate::errors::AppError;

verus! {

/// Both dimensions of a preview are capped at this many pixels.
pub const PREVIEW_CAP: u32 = 250;

/// What preview derivation produces for given source bytes: the encoded
/// preview when the source can be decoded as an image and re-encoded, and
/// nothing otherwise.  Decoding, the bounded resize and PNG encoding depend
/// on the source bytes alone, so this is a function of them.
pub uninterp spec fn derived_preview(source: Seq<u8>) -> Option<Seq<u8>>;

/// Relies on image::load_from_memory (decodes the bytes as an image, with
/// the format guessed from their leading magic), DynamicImage::thumbnail
/// (resizes to fit the cap in both dimensions, preserving aspect ratio) and
/// DynamicImage::write_to with the PNG format: all three depend on the
/// source bytes alone.
#[verifier::external_body]
fn render_preview(source: &Vec<u8>) -> (r: Option<Vec<u8>>)
    ensures
        r is Some <==> derived_preview(source@) is Some,
        r is Some ==> r->0@ == derived_preview(source@)->0,
{
    let img = match image::load_from_memory(source) {
        Ok(img) => img,
        Err(_) => return None,
    };
    let thumb = img.thumbnail(PREVIEW_CAP, PREVIEW_CAP);
    let mut bytes: Vec<u8> = Vec::new();
    match thumb.write_to(&mut std::io::Cursor::new(&mut bytes), image::ImageFormat::Png) {
        Ok(()) => Some(bytes),
        Err(_) => None,
    }
}

/// Derives the preview for an uploaded item.  Succeeds exactly when the
/// source bytes can be handled as an image; a source that cannot be is
/// rejected as `UnsupportedInput`, and the caller surfaces that as the
/// item's ingest outcome.
pub fn generate_thumbnail(source: &Vec<u8>) -> (r: Result<Vec<u8>, AppError>)
    ensures
        r is Ok <==> derived_preview(source@) is Some,
        r is Ok ==> r->Ok_0@ == derived_preview(source@)->0,
        r is Err ==> r->Err_0 == AppError::UnsupportedInput,
{
    match render_preview(source) {
        Some(bytes) => Ok(bytes),
        None => Err(AppError::UnsupportedInput),
    }
}

} // verus!

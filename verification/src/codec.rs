//! Trusted bindings to the pure encoders the screenshot path uses: the PNG
//! encoder of the `image` crate and the standard base64 alphabet of the
//! `base64` crate.  Both results are functions of their arguments alone; each
//! is given a name that the callers' contracts are stated over.

use base64::Engine;
use vstd::prelude::*;

verus! {

/// The bytes of the PNG encoding of a `width` x `height` RGBA8 image with
/// row-major pixel data `rgba`.
pub uninterp spec fn png_encoding(width: nat, height: nat, rgba: Seq<u8>) -> Seq<u8>;

/// The standard, padded base64 rendering of a byte sequence.
pub uninterp spec fn base64_encoding(bytes: Seq<u8>) -> Seq<char>;

/// The data-URI rendering of a PNG image.
pub open spec fn data_uri_of(png: Seq<u8>) -> Seq<char> {
    "data:image/png;base64,"@ + base64_encoding(png)
}

/// Relies on `image::ImageBuffer::write_to` with the PNG output format: the
/// encoder writes a byte stream that depends on the dimensions and pixel data
/// alone.  For an RGBA8 buffer of the exact length, writing to an in-memory
/// cursor, its only error paths are a zero width or a zero height; an image
/// with positive dimensions is therefore always encoded.
#[verifier::external_body]
pub(crate) fn png_encode(width: u32, height: u32, rgba: &Vec<u8>) -> (r: Result<Vec<u8>, String>)
    requires
        rgba@.len() == 4 * (width as int) * (height as int),
    ensures
        r matches Ok(b) ==> b@ == png_encoding(width as nat, height as nat, rgba@),
        width > 0 && height > 0 ==> r is Ok,
{
    let img = image::RgbaImage::from_raw(width, height, rgba.clone()).unwrap();
    let mut cursor = std::io::Cursor::new(Vec::new());
    match img.write_to(&mut cursor, image::ImageOutputFormat::Png) {
        Ok(()) => Ok(cursor.into_inner()),
        Err(e) => Err(e.to_string()),
    }
}

/// Relies on `base64::engine::general_purpose::STANDARD.encode`: the standard
/// alphabet with padding, four output characters for every started group of
/// three input bytes, a function of the input alone.
#[verifier::external_body]
pub(crate) fn base64_encode(bytes: &Vec<u8>) -> (r: String)
    ensures
        r@ == base64_encoding(bytes@),
        r@.len() == 4 * ((bytes@.len() + 2) / 3),
{
    base64::engine::general_purpose::STANDARD.encode(bytes.as_slice())
}

} // verus!

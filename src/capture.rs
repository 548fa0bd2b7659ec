use vstd::prelude::*;

use crate::error::AGError;
use crate::session::RecvData;

verus! {

/// A decoded screen capture: `width` by `height` pixels, four bytes (red,
/// green, blue, alpha) per pixel, row after row.
#[derive(Debug)]
pub struct Raster {
    pub width: u32,
    pub height: u32,
    pub pixels: Vec<u8>,
}

/// Width, height and RGBA pixels of the image that `bytes` encode, or `None`
/// when they encode none that the decoder knows.
pub uninterp spec fn decoded_rgba(bytes: Seq<u8>) -> Option<(u32, u32, Seq<u8>)>;

/// Text of `bytes` read as UTF-8, each invalid sequence replaced by U+FFFD.
pub uninterp spec fn lossy_text(bytes: Seq<u8>) -> Seq<char>;

/// Relies on image::load_from_memory, which guesses the format from the
/// bytes and decodes them, and on DynamicImage::to_rgba8, which converts the
/// result to eight-bit RGBA; the outcome depends on the bytes alone.
#[verifier::external_body]
fn decode_rgba(bytes: &[u8]) -> (r: Result<Raster, image::ImageError>)
    ensures
        match r {
            Ok(img) => decoded_rgba(bytes@) == Some((img.width, img.height, img.pixels@)),
            Err(_) => decoded_rgba(bytes@) is None,
        },
{
    match image::load_from_memory(bytes) {
        Ok(img) => {
            let rgba = img.to_rgba8();
            Ok(Raster { width: rgba.width(), height: rgba.height(), pixels: rgba.into_raw() })
        },
        Err(e) => Err(e),
    }
}

/// Relies on String::from_utf8_lossy: the text of the bytes, with invalid
/// sequences replaced.
#[verifier::external_body]
pub(crate) fn lossy_utf8(bytes: &[u8]) -> (r: String)
    ensures
        r@ == lossy_text(bytes@),
{
    String::from_utf8_lossy(bytes).into_owned()
}

/// The screen capture in the answer to `screencap -p`. A refused command
/// fails with the device's output as its message; acknowledged output that is
/// not an image fails with an image error.
pub fn capture_result(recv: RecvData) -> (r: Result<Raster, AGError>)
    ensures
        !recv.is_ok ==> (r matches Err(AGError::Custom(m)) && m@ == lossy_text(recv.data@)),
        recv.is_ok ==> match decoded_rgba(recv.data@) {
            Some((w, h, p)) => r matches Ok(img) && img.width == w && img.height == h
                && img.pixels@ == p,
            None => r matches Err(AGError::Image(_)),
        },
{
    if !recv.is_ok {
        return Err(AGError::Custom(lossy_utf8(recv.data.as_slice())));
    }
    match decode_rgba(recv.data.as_slice()) {
        Ok(img) => Ok(img),
        Err(e) => Err(AGError::Image(e)),
    }
}

} // verus!

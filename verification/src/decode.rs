//! Decoding an image file into an RGB byte buffer.
//!
//! The decoding itself is done by the `image` crate behind a trusted
//! wrapper; everything downstream works on the plain `DecodedImage` value.

use vstd::prelude::*;
use crate::error::ViewerError;

verus! {

/// A decoded image: its pixel dimensions and its samples as a flat RGB
/// buffer, three bytes per pixel, rows from top to bottom.
#[derive(Debug)]
pub struct DecodedImage {
    pub width: u32,
    pub height: u32,
    pub pixels: Vec<u8>,
}

impl DecodedImage {
    /// The buffer holds exactly three bytes per pixel, and the total byte
    /// count stays within the decoder's allocation limit.
    pub open spec fn wf(&self) -> bool {
        &&& self.pixels@.len() == 3 * (self.width as int) * (self.height as int)
        &&& 3 * (self.width as int) * (self.height as int) <= usize::MAX as int / 2
    }
}

/// What the decoder makes of a byte sequence: the 8-bit RGB image it
/// decodes to, or nothing when the bytes are not a supported format or do
/// not decode to that layout. Decoding is a function of the bytes alone, so
/// the result carries this name rather than a spelled-out algorithm.
pub uninterp spec fn decoded_rgb_of(bytes: Seq<u8>) -> Option<DecodedImage>;

/// Relies on `image::load_from_memory` and `DynamicImage::as_rgb8`: the
/// result depends on the bytes alone, and a decoded 8-bit RGB image carries
/// a sample buffer of exactly `width * height * 3` bytes (the decoder
/// allocates exactly its `total_bytes`) and rejects an image whose total
/// byte count would exceed `isize::MAX`.
#[verifier::external_body]
fn decode_rgb(bytes: &Vec<u8>) -> (r: Option<DecodedImage>)
    ensures
        r == decoded_rgb_of(bytes@),
        r matches Some(d) ==> d.wf(),
{
    let img = match image::load_from_memory(bytes.as_slice()) {
        Ok(img) => img,
        Err(_) => return None,
    };
    match img.as_rgb8() {
        Some(rgb) => Some(DecodedImage {
            width: rgb.width(),
            height: rgb.height(),
            pixels: rgb.as_raw().clone(),
        }),
        None => None,
    }
}

/// Decode the raw bytes of an image file into an RGB image: exactly the
/// image the decoder makes of the bytes. Fails, with `ImageDecodeFailure`
/// and nothing else, exactly when the bytes are not a supported image
/// format or the decoded image is not 8-bit RGB.
pub fn load_image(bytes: &Vec<u8>) -> (r: Result<DecodedImage, ViewerError>)
    ensures
        r matches Ok(d) ==> d.wf() && decoded_rgb_of(bytes@) == Some(d),
        r is Err <==> decoded_rgb_of(bytes@) is None,
        r matches Err(e) ==> e == ViewerError::ImageDecodeFailure,
{
    match decode_rgb(bytes) {
        Some(d) => Ok(d),
        None => Err(ViewerError::ImageDecodeFailure),
    }
}

} // verus!

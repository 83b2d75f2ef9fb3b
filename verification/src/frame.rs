//! RGB-to-RGBA pixel conversion.
//!
//! The presentation surface wants four bytes per pixel; the decoded image
//! has three. For every source pixel the three color channels are copied
//! verbatim and the alpha channel is set to fully opaque.

use vstd::prelude::*;
use crate::decode::DecodedImage;

verus! {

/// The conversion holds pixel by pixel: each group of four output bytes
/// copies the corresponding group of three input bytes and appends 0xff.
pub open spec fn pixel_converted(src: Seq<u8>, dst: Seq<u8>, i: int) -> bool {
    &&& dst[4 * i] == src[3 * i]
    &&& dst[4 * i + 1] == src[3 * i + 1]
    &&& dst[4 * i + 2] == src[3 * i + 2]
    &&& dst[4 * i + 3] == 0xff
}

/// Convert a flat RGB buffer into a flat RGBA buffer, pixel by pixel, with
/// the alpha channel fully opaque. Trailing bytes that do not form a whole
/// 3-byte pixel are ignored.
pub fn convert_pixels(src: &Vec<u8>) -> (r: Vec<u8>)
    requires
        src@.len() / 3 <= usize::MAX as int / 4,
    ensures
        r@.len() == src@.len() / 3 * 4,
        forall|i: int| 0 <= i < src@.len() / 3 ==> #[trigger] pixel_converted(src@, r@, i),
{
    let n: usize = src.len() / 3;
    proof {
        vstd::arithmetic::div_mod::lemma_fundamental_div_mod(src@.len() as int, 3);
        vstd::arithmetic::div_mod::lemma_mod_bound(src@.len() as int, 3);
    }
    let mut out: Vec<u8> = Vec::new();
    let mut i: usize = 0;
    while i < n
        invariant
            n == src@.len() / 3,
            3 * n <= src@.len(),
            n <= usize::MAX / 4,
            i <= n,
            out@.len() == 4 * i,
            forall|j: int| 0 <= j < i ==> #[trigger] pixel_converted(src@, out@, j),
        decreases n - i,
    {
        let b0: u8 = src[3 * i];
        let b1: u8 = src[3 * i + 1];
        let b2: u8 = src[3 * i + 2];
        let ghost prev = out@;
        out.push(b0);
        out.push(b1);
        out.push(b2);
        out.push(0xff);
        i = i + 1;
        proof {
            assert forall|j: int| 0 <= j < i implies #[trigger] pixel_converted(
                src@,
                out@,
                j,
            ) by {
                if j < i - 1 {
                    assert(pixel_converted(src@, prev, j));
                    assert(out@[4 * j] == prev[4 * j]);
                    assert(out@[4 * j + 1] == prev[4 * j + 1]);
                    assert(out@[4 * j + 2] == prev[4 * j + 2]);
                    assert(out@[4 * j + 3] == prev[4 * j + 3]);
                } else {
                    assert(out@[4 * j] == b0);
                    assert(out@[4 * j + 1] == b1);
                    assert(out@[4 * j + 2] == b2);
                    assert(out@[4 * j + 3] == 0xff);
                }
            }
        }
    }
    out
}

/// The RGBA frame for a whole decoded image: four bytes for each of its
/// `width * height` pixels.
pub fn build_frame(img: &DecodedImage) -> (r: Vec<u8>)
    requires
        img.wf(),
    ensures
        r@.len() == 4 * (img.width as int) * (img.height as int),
        forall|i: int|
            0 <= i < (img.width as int) * (img.height as int)
                ==> #[trigger] pixel_converted(img.pixels@, r@, i),
{
    proof {
        let w = img.width as int;
        let h = img.height as int;
        assert(3 * w * h == 3 * (w * h)) by (nonlinear_arith);
        vstd::arithmetic::div_mod::lemma_div_multiples_vanish(w * h, 3);
        assert(img.pixels@.len() / 3 == w * h);
        assert((w * h) * 4 == 4 * w * h) by (nonlinear_arith);
    }
    convert_pixels(&img.pixels)
}

} // verus!

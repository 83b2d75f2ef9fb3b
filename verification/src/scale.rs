//! Scale-factor computation and window sizing.
//!
//! The viewer never upscales: an image that fits strictly inside the allowed
//! screen area is shown at its native size. An image that exceeds the area is
//! divided by the smallest integer scale that brings it back inside.

use vstd::prelude::*;

verus! {

/// Percentage of the primary monitor's size that the window may occupy at
/// most.
pub const SCREEN_PERCENT: u32 = 90;

/// Integer scale factor by which an image dimension must be divided to fit
/// inside `max_size`: 1 when the dimension lies strictly below the maximum, 0
/// when the two are exactly equal (a degenerate value, likely a latent bug,
/// deliberately left in place; callers must not divide by it), and otherwise
/// the ceiling of `size / max_size`. When `max_size` is 0 and `size` is
/// positive the scale saturates to `u32::MAX`.
pub open spec fn spec_scale(max_size: u32, size: u32) -> int {
    if max_size > size {
        1
    } else if max_size == size {
        0
    } else if max_size == 0 {
        u32::MAX as int
    } else {
        (size as int + max_size as int - 1) / (max_size as int)
    }
}

/// Scale factor needed to fit an image dimension of `size` inside `max_size`.
pub fn calc_scale(max_size: u32, size: u32) -> (r: u32)
    ensures
        r == spec_scale(max_size, size),
{
    if max_size > size {
        1
    } else if max_size == size {
        0
    } else if max_size == 0 {
        u32::MAX
    } else {
        let q: u32 = size / max_size;
        let rem: u32 = size % max_size;
        proof {
            vstd::arithmetic::div_mod::lemma_fundamental_div_mod(size as int, max_size as int);
        }
        if rem == 0 {
            assert(q == (size as int + max_size as int - 1) / (max_size as int)) by {
                vstd::arithmetic::div_mod::lemma_fundamental_div_mod_converse_div(
                    size as int + max_size as int - 1,
                    max_size as int,
                    q as int,
                    max_size as int - 1,
                );
            }
            q
        } else {
            assert(2 <= max_size);
            assert(q as int + 1 <= u32::MAX as int) by (nonlinear_arith)
                requires
                    size as int == max_size as int * (q as int) + rem as int,
                    2 <= max_size as int,
                    1 <= rem as int,
                    size as int <= u32::MAX as int,
                    0 <= q as int,
            ;
            assert(size as int + max_size as int - 1 == (q as int + 1) * (max_size as int) + (
            rem as int - 1)) by (nonlinear_arith)
                requires
                    size as int == max_size as int * (q as int) + rem as int,
            ;
            assert(q + 1 == (size as int + max_size as int - 1) / (max_size as int)) by {
                vstd::arithmetic::div_mod::lemma_fundamental_div_mod_converse_div(
                    size as int + max_size as int - 1,
                    max_size as int,
                    q as int + 1,
                    rem as int - 1,
                );
            }
            q + 1
        }
    }
}

/// A scale factor always covers the dimension it was computed for: whenever
/// the image dimension strictly exceeds a positive maximum, the scale times
/// the maximum reaches the image dimension again.
pub proof fn lemma_scale_covers(max_size: u32, size: u32)
    requires
        0 < max_size < size,
    ensures
        spec_scale(max_size, size) * max_size >= size,
{
    let x = size as int + max_size as int - 1;
    let d = max_size as int;
    let s = spec_scale(max_size, size);
    vstd::arithmetic::div_mod::lemma_fundamental_div_mod(x, d);
    vstd::arithmetic::div_mod::lemma_mod_bound(x, d);
    assert(s == x / d);
    assert(d * s >= size);
    assert(s * d == d * s) by (nonlinear_arith);
}

/// The scale factor is positive for every pair of unequal dimensions; it
/// degenerates to 0 only on exact equality.
pub proof fn lemma_scale_pos(max_size: u32, size: u32)
    requires
        max_size != size,
    ensures
        spec_scale(max_size, size) >= 1,
{
    if 0 < max_size < size {
        vstd::arithmetic::div_mod::lemma_div_non_zero(
            size as int + max_size as int - 1,
            max_size as int,
        );
    }
}

/// The portion of the screen that the window may occupy, per axis:
/// `SCREEN_PERCENT` percent of the monitor size, rounded down.
pub fn max_screen_size(screen_w: u32, screen_h: u32) -> (r: (u32, u32))
    requires
        screen_w as int * SCREEN_PERCENT as int <= u32::MAX as int,
        screen_h as int * SCREEN_PERCENT as int <= u32::MAX as int,
    ensures
        r.0 == screen_w as int * SCREEN_PERCENT as int / 100,
        r.1 == screen_h as int * SCREEN_PERCENT as int / 100,
{
    (screen_w * SCREEN_PERCENT / 100, screen_h * SCREEN_PERCENT / 100)
}

/// The single scale applied to both axes: the larger of the horizontal and
/// vertical scale factors, so that the aspect ratio is preserved and both
/// axes fit.
pub open spec fn spec_window_scale(max_w: u32, max_h: u32, img_w: u32, img_h: u32) -> int {
    let hscale = spec_scale(max_w, img_w);
    let vscale = spec_scale(max_h, img_h);
    if hscale >= vscale {
        hscale
    } else {
        vscale
    }
}

/// Initial window size for an image of `img_w` by `img_h` pixels shown inside
/// an allowed area of `max_w` by `max_h`: both image dimensions divided by
/// the common scale factor. When both axes are exactly equal to the allowed
/// maximum the common scale degenerates to 0 and the division is undefined
/// (the program aborts), so that pair of inputs is excluded.
pub fn window_size(max_w: u32, max_h: u32, img_w: u32, img_h: u32) -> (r: (u32, u32))
    requires
        !(max_w == img_w && max_h == img_h),
    ensures
        spec_window_scale(max_w, max_h, img_w, img_h) >= 1,
        r.0 == img_w as int / spec_window_scale(max_w, max_h, img_w, img_h),
        r.1 == img_h as int / spec_window_scale(max_w, max_h, img_w, img_h),
{
    let hscale = calc_scale(max_w, img_w);
    let vscale = calc_scale(max_h, img_h);
    proof {
        if max_w != img_w {
            lemma_scale_pos(max_w, img_w);
        } else {
            lemma_scale_pos(max_h, img_h);
        }
    }
    let scale: u32 = if hscale >= vscale {
        hscale
    } else {
        vscale
    };
    (img_w / scale, img_h / scale)
}

/// Initial window size straight from the monitor size: the allowed area is
/// `SCREEN_PERCENT` percent of the screen on each axis, and the image is
/// fitted into it as in `window_size`.
pub fn initial_window_size(screen_w: u32, screen_h: u32, img_w: u32, img_h: u32) -> (r: (
    u32,
    u32,
))
    requires
        screen_w as int * SCREEN_PERCENT as int <= u32::MAX as int,
        screen_h as int * SCREEN_PERCENT as int <= u32::MAX as int,
        !(screen_w as int * SCREEN_PERCENT as int / 100 == img_w
            && screen_h as int * SCREEN_PERCENT as int / 100 == img_h),
    ensures
        ({
            let max_w = screen_w as int * SCREEN_PERCENT as int / 100;
            let max_h = screen_h as int * SCREEN_PERCENT as int / 100;
            &&& r.0 == img_w as int / spec_window_scale(
                max_w as u32,
                max_h as u32,
                img_w,
                img_h,
            )
            &&& r.1 == img_h as int / spec_window_scale(max_w as u32, max_h as u32, img_w, img_h)
        }),
{
    let (max_w, max_h) = max_screen_size(screen_w, screen_h);
    window_size(max_w, max_h, img_w, img_h)
}

} // verus!


use vstd::prelude::*;

verus! {

/// Alpha of a text pixel of coverage `a1` drawn over one of alpha `a0`.
pub open spec fn blended_alpha(a0: int, a1: int) -> int {
    let v = a1 + a0 * (255 - a1) / 255;
    if v < 255 {
        v
    } else {
        255
    }
}

/// A color channel of a text pixel (channel `c1`, coverage `a1`) drawn over
/// one with channel `c0` and alpha `a0`.
pub open spec fn blended_channel(c0: int, a0: int, c1: int, a1: int) -> int {
    let v = (c1 * a1 + c0 * a0 * (255 - a1) / 255) / 255;
    if v < 255 {
        v
    } else {
        255
    }
}

/// `min(v, 255)` as a byte.
fn saturate(v: u32) -> (r: u8)
    ensures
        r == if v < 255 {
            v as int
        } else {
            255
        },
{
    if v < 255 {
        v as u8
    } else {
        255
    }
}

/// Draws a text pixel of color `rgb` and coverage `coverage` over the
/// overlay pixel `dst`, both stored alpha first and then the color channels
/// in the overlay's order, and returns the result.
pub fn blend_text_pixel(dst: [u8; 4], coverage: u8, rgb: [u8; 3]) -> (r: [u8; 4])
    ensures
        r[0] == blended_alpha(dst[0] as int, coverage as int),
        r[1] == blended_channel(dst[1] as int, dst[0] as int, rgb[0] as int, coverage as int),
        r[2] == blended_channel(dst[2] as int, dst[0] as int, rgb[1] as int, coverage as int),
        r[3] == blended_channel(dst[3] as int, dst[0] as int, rgb[2] as int, coverage as int),
{
    let a0 = dst[0] as u32;
    let a1 = coverage as u32;
    assert(a0 * (255 - a1) <= 255 * 255) by (nonlinear_arith)
        requires
            a0 <= 255,
            a1 <= 255,
    ;
    let keep: u32 = a0 * (255 - a1);
    let alpha = saturate(a1 + keep / 255);
    let c1 = blend_channel(dst[1], rgb[0], a0, a1);
    let c2 = blend_channel(dst[2], rgb[1], a0, a1);
    let c3 = blend_channel(dst[3], rgb[2], a0, a1);
    [alpha, c1, c2, c3]
}

/// One color channel of [`blend_text_pixel`].
fn blend_channel(c0: u8, c1: u8, a0: u32, a1: u32) -> (r: u8)
    requires
        a0 <= 255,
        a1 <= 255,
    ensures
        r == blended_channel(c0 as int, a0 as int, c1 as int, a1 as int),
{
    assert(c0 as u32 * a0 <= 255 * 255) by (nonlinear_arith)
        requires
            c0 <= 255,
            a0 <= 255,
    ;
    assert(c0 as u32 * a0 * (255 - a1) <= 255 * 255 * 255) by (nonlinear_arith)
        requires
            c0 <= 255,
            a0 <= 255,
            a1 <= 255,
    ;
    assert(c1 as u32 * a1 <= 255 * 255) by (nonlinear_arith)
        requires
            c1 <= 255,
            a1 <= 255,
    ;
    let under: u32 = c0 as u32 * a0 * (255 - a1) / 255;
    let over: u32 = c1 as u32 * a1;
    saturate((over + under) / 255)
}

} // verus!

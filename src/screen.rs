//! Mapping a pixel to normalized screen coordinates, with aspect correction.
use vstd::prelude::*;

verus! {

/// An exact fraction `num / den`.
#[derive(Clone, Copy, Debug, PartialEq, Eq, Structural)]
pub struct Ratio {
    pub num: i64,
    pub den: i64,
}

/// Normalized screen coordinates of a pixel: 0.5 is the centre of the
/// screen on each axis, and `y` grows downward.
#[derive(Clone, Copy, Debug, PartialEq, Eq, Structural)]
pub struct ScreenOffset {
    pub x: Ratio,
    pub y: Ratio,
}

pub open spec fn is_ratio(r: Ratio, num: int, den: int) -> bool {
    r.num == num && r.den == den
}

/// The offsets of the centre of pixel `(x, y)` in a `w` × `h` image, taken
/// at `(x + 1/2, y + 1/2)`. The axis along the longer side is stretched
/// around the screen centre by `long / short`, so that a unit on either axis
/// spans the same number of pixels: for `w > h`,
/// `x ↦ (x + 1/2 − w/2)/h + 1/2`; for `h > w`, `y ↦ (y + 1/2 − h/2)/w + 1/2`;
/// the other axis, and both for a square image, is `(x + 1/2)/w`, `(y + 1/2)/h`.
pub open spec fn is_screen_offset(o: ScreenOffset, x: int, y: int, w: int, h: int) -> bool {
    if w > h {
        is_ratio(o.x, 2 * x + 1 - w + h, 2 * h) && is_ratio(o.y, 2 * y + 1, 2 * h)
    } else if h > w {
        is_ratio(o.x, 2 * x + 1, 2 * w) && is_ratio(o.y, 2 * y + 1 - h + w, 2 * w)
    } else {
        is_ratio(o.x, 2 * x + 1, 2 * w) && is_ratio(o.y, 2 * y + 1, 2 * h)
    }
}

/// Screen offsets of pixel `(x, y)` of a `width` × `height` image.
pub fn screen_offset(x: u32, y: u32, width: u32, height: u32) -> (r: ScreenOffset)
    requires
        x < width,
        y < height,
    ensures
        is_screen_offset(r, x as int, y as int, width as int, height as int),
        r.x.den > 0,
        r.y.den > 0,
{
    let (x, y, w, h) = (x as i64, y as i64, width as i64, height as i64);
    let (cx, cy) = (2 * x + 1, 2 * y + 1);
    if w > h {
        ScreenOffset { x: Ratio { num: cx - w + h, den: 2 * h }, y: Ratio { num: cy, den: 2 * h } }
    } else if h > w {
        ScreenOffset { x: Ratio { num: cx, den: 2 * w }, y: Ratio { num: cy - h + w, den: 2 * w } }
    } else {
        ScreenOffset { x: Ratio { num: cx, den: 2 * w }, y: Ratio { num: cy, den: 2 * h } }
    }
}

/// A square image is not stretched: the offsets are the plain pixel-centre
/// fractions `(x + 1/2) / side` and `(y + 1/2) / side`.
pub proof fn lemma_square_image_unstretched(o: ScreenOffset, x: int, y: int, side: int)
    requires
        is_screen_offset(o, x, y, side, side),
    ensures
        is_ratio(o.x, 2 * x + 1, 2 * side),
        is_ratio(o.y, 2 * y + 1, 2 * side),
{
}

/// Stretching keeps the centre in place: a pixel whose centre is the middle
/// of the image (odd sides) maps to 1/2 on both axes.
pub proof fn lemma_centre_maps_to_half(o: ScreenOffset, x: int, y: int, w: int, h: int)
    requires
        is_screen_offset(o, x, y, w, h),
        2 * x + 1 == w,
        2 * y + 1 == h,
    ensures
        2 * o.x.num == o.x.den,
        2 * o.y.num == o.y.den,
{
}

} // verus!

//! The screen-to-NDC coordinate mapper.
//!
//! A pointer position in window pixel coordinates (origin at the top-left
//! corner, y growing downward) is mapped to normalized device coordinates,
//! the [-1, 1] x [-1, 1] space the rendering primitive consumes:
//!
//! ```text
//! ndc_x = 2 * (x / width  - 0.5) = (2 * x - width)  / width
//! ndc_y = 2 * (0.5 - y / height) = (height - 2 * y) / height
//! ```
//!
//! The library holds each coordinate exactly, as the rational
//! `num / den` with `den` the framebuffer extent on that axis; a rendering
//! backend divides once when it builds its vertex data. A zero-sized
//! framebuffer has no such mapping, and the mapper reports that instead of
//! dividing by zero.

use vstd::prelude::*;

verus! {

/// One normalized device coordinate, held exactly as the rational
/// `num / den`. A mapped coordinate always has `den > 0`.
#[derive(Copy, Clone, PartialEq, Eq, Structural, Debug)]
pub struct NdcCoord {
    pub num: i64,
    pub den: u32,
}

impl NdcCoord {
    /// The coordinate lies in [-1, 1], that is, |num / den| <= 1.
    pub open spec fn in_unit_range(self) -> bool {
        -(self.den as int) <= self.num as int <= self.den as int
    }
}

/// A position in normalized device coordinates.
#[derive(Copy, Clone, PartialEq, Eq, Structural, Debug)]
pub struct NdcPoint {
    pub x: NdcCoord,
    pub y: NdcCoord,
}

/// Numerator of `ndc_x` over the denominator `w`: 2 * (x / w - 1/2) = (2x - w) / w.
pub open spec fn ndc_x_num(x: int, w: int) -> int {
    2 * x - w
}

/// Numerator of `ndc_y` over the denominator `h`: 2 * (1/2 - y / h) = (h - 2y) / h.
pub open spec fn ndc_y_num(y: int, h: int) -> int {
    h - 2 * y
}

/// The point that a pointer position maps to under a framebuffer of extent
/// `w` x `h`. Meaningful only for `0 < w` and `0 < h`, where both numerators
/// fit an `i64` for every `i32` position.
pub open spec fn spec_ndc_point(x: int, y: int, w: int, h: int) -> NdcPoint {
    NdcPoint {
        x: NdcCoord { num: ndc_x_num(x, w) as i64, den: w as u32 },
        y: NdcCoord { num: ndc_y_num(y, h) as i64, den: h as u32 },
    }
}

/// Maps a pointer position in window pixel coordinates to normalized device
/// coordinates, or reports a degenerate framebuffer. The position passes
/// through unclamped: a point outside the framebuffer maps outside [-1, 1].
pub fn map_to_ndc(x: i32, y: i32, width: u32, height: u32) -> (r: Option<NdcPoint>)
    ensures
        r is Some <==> width > 0 && height > 0,
        r is Some ==> r->Some_0 == spec_ndc_point(x as int, y as int, width as int, height as int),
{
    if width == 0 || height == 0 {
        None
    } else {
        let x_num: i64 = 2 * (x as i64) - (width as i64);
        let y_num: i64 = (height as i64) - 2 * (y as i64);
        Some(NdcPoint {
            x: NdcCoord { num: x_num, den: width },
            y: NdcCoord { num: y_num, den: height },
        })
    }
}

/// Law: a pointer position inside the framebuffer maps into [-1, 1] on both
/// axes. The corners map to the extremes: the top-left pixel to (-1, +1) and
/// the bottom-right to (+1, -1).
pub proof fn lemma_ndc_in_unit_range(x: int, y: int, w: int, h: int)
    requires
        0 < w <= u32::MAX,
        0 < h <= u32::MAX,
        0 <= x <= w,
        0 <= y <= h,
    ensures
        spec_ndc_point(x, y, w, h).x.in_unit_range(),
        spec_ndc_point(x, y, w, h).y.in_unit_range(),
{
}

} // verus!

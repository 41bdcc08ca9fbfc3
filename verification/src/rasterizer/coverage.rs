//! Which pixels a triangle paints.
//!
//! Everything here is stated over mathematical integers: vertices are raw
//! fixed-point coordinates in pixel space, and a pixel `(x, y)` is judged at
//! its center.

use vstd::prelude::*;
use super::fixed::{at_least_zero, ceil_px, center, floor_px};
use super::math::Vec4;
use super::scene::{CullMode, DrawCommand};

verus! {

pub open spec fn min3(a: int, b: int, c: int) -> int {
    if a <= b && a <= c {
        a
    } else if b <= c {
        b
    } else {
        c
    }
}

pub open spec fn max3(a: int, b: int, c: int) -> int {
    if a >= b && a >= c {
        a
    } else if b >= c {
        b
    } else {
        c
    }
}

/// The edge function of the directed edge from `a` to `b` at the point
/// `(px, py)`: the 2D determinant of `b - a` and `p - a`. Its sign tells on
/// which side of the edge the point lies.
pub open spec fn edge(a: Vec4, b: Vec4, px: int, py: int) -> int {
    (b.x - a.x) * (py - a.y) - (b.y - a.y) * (px - a.x)
}

/// Twice the signed area of the triangle: the 2D determinant of `v1 - v0` and
/// `v2 - v0`.
pub open spec fn signed_area(v0: Vec4, v1: Vec4, v2: Vec4) -> int {
    edge(v0, v1, v2.x as int, v2.y as int)
}

/// The winding that this rasterizer calls counterclockwise: a negative signed
/// area.
pub open spec fn is_ccw(v0: Vec4, v1: Vec4, v2: Vec4) -> bool {
    signed_area(v0, v1, v2) < 0
}

/// Whether `mode` discards a triangle of the given winding.
pub open spec fn culled(mode: CullMode, ccw: bool) -> bool {
    match mode {
        CullMode::Off => false,
        CullMode::Clockwise => !ccw,
        CullMode::Counterclockwise => ccw,
    }
}

/// Whether the center of the pixel `(x, y)` passes the three edge tests of the
/// triangle `a`, `b`, `c`, edges included.
pub open spec fn inside(a: Vec4, b: Vec4, c: Vec4, x: int, y: int) -> bool {
    &&& edge(a, b, center(x), center(y)) >= 0
    &&& edge(b, c, center(x), center(y)) >= 0
    &&& edge(c, a, center(x), center(y)) >= 0
}

/// First pixel column (or row) of the bounding box of three coordinates.
pub open spec fn box_lo(p: int, q: int, r: int) -> int {
    at_least_zero(floor_px(min3(p, q, r)))
}

/// The pixel column (or row) one past the bounding box of three coordinates,
/// in a buffer of `limit` columns (or rows).
pub open spec fn box_hi(p: int, q: int, r: int, limit: int) -> int {
    let hi = at_least_zero(ceil_px(max3(p, q, r)));
    if hi < limit {
        hi
    } else {
        limit
    }
}

/// Whether the pixel `(x, y)` lies in the bounding box of the triangle,
/// clamped to a buffer of `w` by `h` pixels.
pub open spec fn in_box(v0: Vec4, v1: Vec4, v2: Vec4, w: int, h: int, x: int, y: int) -> bool {
    &&& box_lo(v0.x as int, v1.x as int, v2.x as int) <= x < box_hi(
        v0.x as int,
        v1.x as int,
        v2.x as int,
        w,
    )
    &&& box_lo(v0.y as int, v1.y as int, v2.y as int) <= y < box_hi(
        v0.y as int,
        v1.y as int,
        v2.y as int,
        h,
    )
}

/// Whether drawing the triangle `v0`, `v1`, `v2` writes the pixel `(x, y)` of
/// a buffer of `w` by `h` pixels: the triangle is not discarded, the pixel lies
/// in its clamped bounding box, and the pixel's center passes the edge tests
/// of the triangle, taken with `v0` and `v1` exchanged where the winding is
/// counterclockwise.
pub open spec fn triangle_writes(
    mode: CullMode,
    v0: Vec4,
    v1: Vec4,
    v2: Vec4,
    w: int,
    h: int,
    x: int,
    y: int,
) -> bool {
    let ccw = is_ccw(v0, v1, v2);
    &&& !culled(mode, ccw)
    &&& in_box(v0, v1, v2, w, h, x, y)
    &&& if ccw {
        inside(v1, v0, v2, x, y)
    } else {
        inside(v0, v1, v2, x, y)
    }
}

impl<'a> DrawCommand<'a> {
    /// Whether triangle `k` of the mesh writes the pixel `(x, y)`.
    pub open spec fn covers(&self, k: int, w: int, h: int, x: int, y: int) -> bool {
        triangle_writes(
            self.cull_mode,
            self.vertex(3 * k),
            self.vertex(3 * k + 1),
            self.vertex(3 * k + 2),
            w,
            h,
            x,
            y,
        )
    }

    /// Whether one of the first `n` triangles writes the pixel `(x, y)`.
    pub open spec fn writes_before(&self, n: int, w: int, h: int, x: int, y: int) -> bool {
        exists|k: int| 0 <= k < n && #[trigger] self.covers(k, w, h, x, y)
    }

    /// Whether the command writes the pixel `(x, y)`.
    pub open spec fn writes(&self, w: int, h: int, x: int, y: int) -> bool {
        self.writes_before(self.triangles(), w, h, x, y)
    }
}

} // verus!

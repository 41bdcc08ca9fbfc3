//! Scan conversion of a draw command into a pixel buffer.

use vstd::prelude::*;
use super::color::Color;
use super::coverage::{box_hi, box_lo, inside, is_ccw, max3, min3, triangle_writes};
use super::fixed::{ceil_pixel, floor_pixel, lemma_product_bound, pixel_center};
use super::image::{lemma_pixels_determine_bytes, pixel_of, ImageView};
use super::math::{Mat4x4, Vec3, Vec4};
use super::scene::{CullMode, DrawCommand};

verus! {

/// Bound on the x and y of every transformed position.
spec fn reach() -> int {
    0x2_0000_0000_0000
}

/// Whether x and y of `v` are within the bound that every transformed
/// position keeps.
spec fn in_reach(v: Vec4) -> bool {
    -reach() <= v.x <= reach() && -reach() <= v.y <= reach()
}

/// A transformed position stays within reach, whatever the transform.
proof fn lemma_vertex_in_reach(m: Mat4x4, p: Vec3)
    ensures
        in_reach(m.spec_mul(p.spec_as_point())),
{
    let v = p.spec_as_point();
    let s: int = 0x8000_0000;
    lemma_product_bound(m.values[0] as int, v.x as int, s, s);
    lemma_product_bound(m.values[1] as int, v.y as int, s, s);
    lemma_product_bound(m.values[2] as int, v.z as int, s, s);
    lemma_product_bound(m.values[3] as int, v.w as int, s, s);
    lemma_product_bound(m.values[4] as int, v.x as int, s, s);
    lemma_product_bound(m.values[5] as int, v.y as int, s, s);
    lemma_product_bound(m.values[6] as int, v.z as int, s, s);
    lemma_product_bound(m.values[7] as int, v.w as int, s, s);
}

fn least(a: i64, b: i64, c: i64) -> (m: i64)
    ensures
        m == min3(a as int, b as int, c as int),
{
    if a <= b && a <= c {
        a
    } else if b <= c {
        b
    } else {
        c
    }
}

fn greatest(a: i64, b: i64, c: i64) -> (m: i64)
    ensures
        m == max3(a as int, b as int, c as int),
{
    if a >= b && a >= c {
        a
    } else if b >= c {
        b
    } else {
        c
    }
}

/// First column (or row) of the clamped bounding box.
fn first_pixel(p: i64, q: i64, r: i64) -> (lo: u64)
    ensures
        lo == box_lo(p as int, q as int, r as int),
{
    floor_pixel(least(p, q, r))
}

/// One past the last column (or row) of the clamped bounding box.
fn end_pixel(p: i64, q: i64, r: i64, limit: u32) -> (hi: u32)
    ensures
        hi == box_hi(p as int, q as int, r as int, limit as int),
{
    let hi: u64 = ceil_pixel(greatest(p, q, r));
    if hi < limit as u64 {
        hi as u32
    } else {
        limit
    }
}

/// The three edge tests at the center of the pixel `(x, y)`.
fn center_inside(a: Vec4, b: Vec4, c: Vec4, x: u32, y: u32) -> (r: bool)
    requires
        in_reach(a),
        in_reach(b),
        in_reach(c),
    ensures
        r == inside(a, b, c, x as int, y as int),
{
    let p = Vec4 {
        x: pixel_center(x),
        y: pixel_center(y),
        z: 0,
        w: 0,
    };
    let det_ab: i128 = (b - a).det_2d(&(p - a));
    let det_bc: i128 = (c - b).det_2d(&(p - b));
    let det_ca: i128 = (a - c).det_2d(&(p - c));
    det_ab >= 0 && det_bc >= 0 && det_ca >= 0
}

impl<'a> ImageView<'a> {
    /// Paints, in row `y`, the pixels of the columns `[xmin, xmax)` whose
    /// centers pass the edge tests.
    fn fill_row(&mut self, a: Vec4, b: Vec4, c: Vec4, y: u32, xmin: u64, xmax: u32, color: Color)
        requires
            old(self).wf(),
            y < old(self).height,
            xmax <= old(self).width,
            in_reach(a),
            in_reach(b),
            in_reach(c),
        ensures
            final(self).wf(),
            final(self).width == old(self).width,
            final(self).height == old(self).height,
            final(final(self).pixels)@ == final(old(self).pixels)@,
            forall|px: int, py: int|
                old(self).contains(px, py) ==> #[trigger] final(self).pixel(px, py) == if py == y
                    && xmin <= px < xmax && inside(a, b, c, px, py) {
                    color
                } else {
                    old(self).pixel(px, py)
                },
    {
        if xmin >= xmax as u64 {
            return ;
        }
        let mut x: u32 = xmin as u32;
        while x < xmax
            invariant
                xmin <= x <= xmax,
                self.wf(),
                y < self.height,
                xmax <= self.width,
                self.width == old(self).width,
                self.height == old(self).height,
                final(self.pixels)@ == final(old(self).pixels)@,
                in_reach(a),
                in_reach(b),
                in_reach(c),
                forall|px: int, py: int|
                    old(self).contains(px, py) ==> #[trigger] self.pixel(px, py) == if py == y
                        && xmin <= px < x && inside(a, b, c, px, py) {
                        color
                    } else {
                        old(self).pixel(px, py)
                    },
            decreases xmax - x,
        {
            if center_inside(a, b, c, x, y) {
                self.put(x as usize, y as usize, color);
            }
            x = x + 1;
        }
    }

    /// Paints one triangle given in pixel space.
    fn fill_triangle(&mut self, v0: Vec4, v1: Vec4, v2: Vec4, mode: CullMode, color: Color)
        requires
            old(self).wf(),
            in_reach(v0),
            in_reach(v1),
            in_reach(v2),
        ensures
            final(self).wf(),
            final(self).width == old(self).width,
            final(self).height == old(self).height,
            final(final(self).pixels)@ == final(old(self).pixels)@,
            forall|px: int, py: int|
                old(self).contains(px, py) ==> #[trigger] final(self).pixel(px, py)
                    == if triangle_writes(
                    mode,
                    v0,
                    v1,
                    v2,
                    old(self).width as int,
                    old(self).height as int,
                    px,
                    py,
                ) {
                    color
                } else {
                    old(self).pixel(px, py)
                },
    {
        let area: i128 = (v1 - v0).det_2d(&(v2 - v0));
        let ccw: bool = area < 0;
        assert(ccw == is_ccw(v0, v1, v2));
        let skip: bool = match mode {
            CullMode::Off => false,
            CullMode::Clockwise => !ccw,
            CullMode::Counterclockwise => ccw,
        };
        if skip {
            return ;
        }
        let (a, b) = if ccw {
            (v1, v0)
        } else {
            (v0, v1)
        };
        let xmin: u64 = first_pixel(a.x, b.x, v2.x);
        let xmax: u32 = end_pixel(a.x, b.x, v2.x, self.width);
        let ymin: u64 = first_pixel(a.y, b.y, v2.y);
        let ymax: u32 = end_pixel(a.y, b.y, v2.y, self.height);
        if ymin >= ymax as u64 {
            return ;
        }
        let mut y: u32 = ymin as u32;
        while y < ymax
            invariant
                ymin <= y <= ymax,
                ymax <= self.height,
                xmax <= self.width,
                self.wf(),
                self.width == old(self).width,
                self.height == old(self).height,
                final(self.pixels)@ == final(old(self).pixels)@,
                in_reach(a),
                in_reach(b),
                in_reach(v2),
                forall|px: int, py: int|
                    old(self).contains(px, py) ==> #[trigger] self.pixel(px, py) == if ymin <= py
                        < y && xmin <= px < xmax && inside(a, b, v2, px, py) {
                        color
                    } else {
                        old(self).pixel(px, py)
                    },
            decreases ymax - y,
        {
            self.fill_row(a, b, v2, y, xmin, xmax, color);
            y = y + 1;
        }
    }

    /// Paints every triangle of the command's mesh that the cull mode keeps,
    /// in the mesh's flat color. A pixel is written where its center passes the
    /// edge tests of such a triangle; every other pixel is left as it was.
    pub fn draw(&mut self, command: &DrawCommand)
        requires
            old(self).wf(),
        ensures
            final(self).wf(),
            final(self).width == old(self).width,
            final(self).height == old(self).height,
            final(final(self).pixels)@ == final(old(self).pixels)@,
            forall|x: int, y: int|
                old(self).contains(x, y) ==> #[trigger] final(self).pixel(x, y)
                    == if command.writes(old(self).width as int, old(self).height as int, x, y) {
                    command.mesh.color.spec_to_color()
                } else {
                    old(self).pixel(x, y)
                },
            (forall|x: int, y: int|
                old(self).contains(x, y) ==> !command.writes(
                    old(self).width as int,
                    old(self).height as int,
                    x,
                    y,
                )) ==> final(self)@ == old(self)@,
            command.triangles() == 0 ==> final(self)@ == old(self)@,
    {
        let color = command.mesh.color.to_color();
        let len: usize = command.mesh.positions.len();
        let count: usize = len / 3;
        let ghost w = self.width as int;
        let ghost h = self.height as int;
        let mut k: usize = 0;
        while k < count
            invariant
                k <= count,
                len == command.mesh.positions@.len(),
                count == command.triangles(),
                self.wf(),
                self.width == old(self).width,
                self.height == old(self).height,
                w == self.width,
                h == self.height,
                final(self.pixels)@ == final(old(self).pixels)@,
                color == command.mesh.color.spec_to_color(),
                forall|x: int, y: int|
                    old(self).contains(x, y) ==> #[trigger] self.pixel(x, y)
                        == if command.writes_before(k as int, w, h, x, y) {
                        color
                    } else {
                        old(self).pixel(x, y)
                    },
                k == 0 ==> self@ == old(self)@,
            decreases count - k,
        {
            let v0 = command.transform * command.mesh.positions[3 * k].as_point();
            let v1 = command.transform * command.mesh.positions[3 * k + 1].as_point();
            let v2 = command.transform * command.mesh.positions[3 * k + 2].as_point();
            proof {
                lemma_vertex_in_reach(command.transform, command.mesh.positions@[3 * k]);
                lemma_vertex_in_reach(command.transform, command.mesh.positions@[3 * k + 1]);
                lemma_vertex_in_reach(command.transform, command.mesh.positions@[3 * k + 2]);
            }
            let ghost before = *self;
            self.fill_triangle(v0, v1, v2, command.cull_mode, color);
            proof {
                assert forall|x: int, y: int| old(self).contains(x, y) implies #[trigger] self.pixel(
                    x,
                    y,
                ) == if command.writes_before(k + 1, w, h, x, y) {
                    color
                } else {
                    old(self).pixel(x, y)
                } by {
                    assert(before.contains(x, y));
                    if command.covers(k as int, w, h, x, y) {
                        assert(command.writes_before(k + 1, w, h, x, y));
                    } else if command.writes_before(k as int, w, h, x, y) {
                        let j = choose|j: int| 0 <= j < k && #[trigger] command.covers(j, w, h, x, y);
                        assert(command.covers(j, w, h, x, y));
                        assert(command.writes_before(k + 1, w, h, x, y));
                    } else {
                        assert(!command.writes_before(k + 1, w, h, x, y));
                    }
                }
            }
            k = k + 1;
        }
        proof {
            if forall|x: int, y: int| old(self).contains(x, y) ==> !command.writes(w, h, x, y) {
                assert forall|x: int, y: int| 0 <= x < w && 0 <= y < h implies #[trigger] pixel_of(
                    self@,
                    w,
                    x,
                    y,
                ) == pixel_of(old(self)@, w, x, y) by {
                    assert(old(self).contains(x, y));
                    assert(self.pixel(x, y) == old(self).pixel(x, y));
                }
                lemma_pixels_determine_bytes(self@, old(self)@, w, h);
            }
        }
    }
}

} // verus!

//! What holds of every triangle and every pixel.

use vstd::prelude::*;
use super::coverage::{
    edge,
    in_box,
    inside,
    is_ccw,
    max3,
    min3,
    signed_area,
    triangle_writes,
};
use super::fixed::{center, ONE};
use super::math::Vec4;
use super::scene::{CullMode, DrawCommand};

verus! {

/// Reversing an edge negates its edge function.
proof fn lemma_edge_reversed(ax: int, ay: int, bx: int, by: int, px: int, py: int)
    by (nonlinear_arith)
    ensures
        (ax - bx) * (py - by) - (ay - by) * (px - bx) == -((bx - ax) * (py - ay) - (by - ay) * (px
            - ax)),
{
}

/// A product of three factors does not depend on their order.
proof fn lemma_triple(a: int, b: int, c: int)
    by (nonlinear_arith)
    ensures
        a * b * c == a * c * b,
        a * b * c == b * a * c,
        a * b * c == b * c * a,
        a * b * c == c * a * b,
        a * b * c == c * b * a,
        a * (b * c) == a * b * c,
{
}

/// A difference of two products times a third factor.
proof fn lemma_expand(a: int, b: int, c: int, d: int, k: int)
    by (nonlinear_arith)
    ensures
        (a * b - c * d) * k == a * b * k - c * d * k,
{
}

/// For a triangle with one vertex at the origin and the others at `u` and
/// `v`: the edge functions at `q` of the two edges through the origin weigh
/// `u` and `v` to the point, with the signed area as their scale.
proof fn lemma_weights_at_origin(ux: int, uy: int, vx: int, vy: int, qx: int, qy: int)
    ensures
        (ux * vy - uy * vx) * qx == (vy * qx - vx * qy) * ux + (ux * qy - uy * qx) * vx,
        (ux * vy - uy * vx) * qy == (vy * qx - vx * qy) * uy + (ux * qy - uy * qx) * vy,
{
    lemma_expand(ux, vy, uy, vx, qx);
    lemma_expand(vy, qx, vx, qy, ux);
    lemma_expand(ux, qy, uy, qx, vx);
    lemma_expand(ux, vy, uy, vx, qy);
    lemma_expand(vy, qx, vx, qy, uy);
    lemma_expand(ux, qy, uy, qx, vy);
    lemma_triple(ux, vy, qx);
    lemma_triple(uy, vx, qx);
    lemma_triple(vx, qy, ux);
    lemma_triple(ux, qy, vx);
    lemma_triple(ux, vy, qy);
    lemma_triple(uy, vx, qy);
    lemma_triple(vy, qx, uy);
    lemma_triple(uy, qx, vy);
    lemma_triple(vy, qx, ux);
    lemma_triple(uy, qx, vx);
    lemma_triple(vx, qy, uy);
    lemma_triple(ux, qy, vy);
}

/// The 2D determinant is linear in each argument and vanishes on equal
/// arguments.
proof fn lemma_det_linear(ux: int, uy: int, vx: int, vy: int, qx: int, qy: int)
    by (nonlinear_arith)
    ensures
        (vx - ux) * (qy - uy) - (vy - uy) * (qx - ux) == (vx * qy - vy * qx) - (vx * uy - vy * ux)
            - (ux * qy - uy * qx),
        (0 - vx) * (qy - vy) - (0 - vy) * (qx - vx) == vy * qx - vx * qy,
{
}

/// A product distributes over a sum.
proof fn lemma_distribute(e: int, a: int, b: int)
    by (nonlinear_arith)
    ensures
        e * (a + b) == e * a + e * b,
{
}

/// The three edge functions at any point add up to the triangle's signed
/// area, and weigh the vertices to that point.
proof fn lemma_barycentric(
    ax: int,
    ay: int,
    bx: int,
    by: int,
    cx: int,
    cy: int,
    px: int,
    py: int,
    eab: int,
    ebc: int,
    eca: int,
    area: int,
)
    requires
        eab == (bx - ax) * (py - ay) - (by - ay) * (px - ax),
        ebc == (cx - bx) * (py - by) - (cy - by) * (px - bx),
        eca == (ax - cx) * (py - cy) - (ay - cy) * (px - cx),
        area == (bx - ax) * (cy - ay) - (by - ay) * (cx - ax),
    ensures
        eab + ebc + eca == area,
        area * px == ebc * ax + eca * bx + eab * cx,
        area * py == ebc * ay + eca * by + eab * cy,
{
    let ux = bx - ax;
    let uy = by - ay;
    let vx = cx - ax;
    let vy = cy - ay;
    let qx = px - ax;
    let qy = py - ay;
    assert(eab == ux * qy - uy * qx);
    assert(area == ux * vy - uy * vx);
    assert(ebc == (vx - ux) * (qy - uy) - (vy - uy) * (qx - ux));
    assert(eca == (0 - vx) * (qy - vy) - (0 - vy) * (qx - vx));
    lemma_det_linear(ux, uy, vx, vy, qx, qy);
    assert(eca == vy * qx - vx * qy);
    assert(ebc == (vx * qy - vy * qx) - (vx * uy - vy * ux) - (ux * qy - uy * qx));
    assert(vx * uy == uy * vx && vy * ux == ux * vy) by (nonlinear_arith);
    assert(eab + ebc + eca == area);
    lemma_weights_at_origin(ux, uy, vx, vy, qx, qy);
    assert(area * qx == eca * ux + eab * vx);
    assert(area * qy == eca * uy + eab * vy);
    lemma_distribute(area, qx, ax);
    lemma_distribute(area, qy, ay);
    lemma_distribute(eca, ux, ax);
    lemma_distribute(eab, vx, ax);
    lemma_distribute(eca, uy, ay);
    lemma_distribute(eab, vy, ay);
    assert(area * ax == eab * ax + ebc * ax + eca * ax) by (nonlinear_arith)
        requires
            area == eab + ebc + eca,
    ;
    assert(area * ay == eab * ay + ebc * ay + eca * ay) by (nonlinear_arith)
        requires
            area == eab + ebc + eca,
    ;
    assert(qx + ax == px && ux + ax == bx && vx + ax == cx);
    assert(qy + ay == py && uy + ay == by && vy + ay == cy);
}

/// A weighted mean with weights that are not negative lies between the least
/// and the greatest of the values.
proof fn lemma_weighted_mean(e0: int, e1: int, e2: int, a: int, b: int, c: int, p: int)
    by (nonlinear_arith)
    requires
        e0 >= 0,
        e1 >= 0,
        e2 >= 0,
        e0 + e1 + e2 > 0,
        (e0 + e1 + e2) * p == e0 * a + e1 * b + e2 * c,
    ensures
        min3(a, b, c) <= p <= max3(a, b, c),
{
    let lo = min3(a, b, c);
    let hi = max3(a, b, c);
    let s = e0 + e1 + e2;
    assert(e0 * a >= e0 * lo && e1 * b >= e1 * lo && e2 * c >= e2 * lo);
    assert(e0 * a <= e0 * hi && e1 * b <= e1 * hi && e2 * c <= e2 * hi);
    assert(s * lo == e0 * lo + e1 * lo + e2 * lo);
    assert(s * hi == e0 * hi + e1 * hi + e2 * hi);
    assert(s * (p - lo) >= 0);
    assert(s * (hi - p) >= 0);
}

/// The sign of a product with a factor that is not zero.
proof fn lemma_sign(e: int, area: int)
    by (nonlinear_arith)
    requires
        area != 0,
    ensures
        area > 0 ==> (e * area >= 0 <==> e >= 0),
        area < 0 ==> (e * area >= 0 <==> e <= 0),
{
}

/// A pixel whose center passes the edge tests of a triangle of positive
/// signed area lies in the triangle's bounding box.
proof fn lemma_inside_in_box(a: Vec4, b: Vec4, c: Vec4, w: int, h: int, x: int, y: int)
    requires
        signed_area(a, b, c) > 0,
        inside(a, b, c, x, y),
        0 <= x < w,
        0 <= y < h,
    ensures
        in_box(a, b, c, w, h, x, y),
{
    let px = center(x);
    let py = center(y);
    let eab = edge(a, b, px, py);
    let ebc = edge(b, c, px, py);
    let eca = edge(c, a, px, py);
    let area = signed_area(a, b, c);
    lemma_barycentric(
        a.x as int,
        a.y as int,
        b.x as int,
        b.y as int,
        c.x as int,
        c.y as int,
        px,
        py,
        eab,
        ebc,
        eca,
        area,
    );
    lemma_weighted_mean(ebc, eca, eab, a.x as int, b.x as int, c.x as int, px);
    lemma_weighted_mean(ebc, eca, eab, a.y as int, b.y as int, c.y as int, py);
}

/// The check by barycentric coordinates: each of the three weights
/// of the pixel's center, an edge function over the signed area, is not
/// negative.
pub open spec fn barycentric_inside(v0: Vec4, v1: Vec4, v2: Vec4, x: int, y: int) -> bool {
    let area = signed_area(v0, v1, v2);
    &&& edge(v1, v2, center(x), center(y)) * area >= 0
    &&& edge(v2, v0, center(x), center(y)) * area >= 0
    &&& edge(v0, v1, center(x), center(y)) * area >= 0
}

/// The edge tests that the rasterizer makes: those of the triangle with `v0`
/// and `v1` exchanged where the winding is counterclockwise.
pub open spec fn passes_edge_tests(v0: Vec4, v1: Vec4, v2: Vec4, x: int, y: int) -> bool {
    if is_ccw(v0, v1, v2) {
        inside(v1, v0, v2, x, y)
    } else {
        inside(v0, v1, v2, x, y)
    }
}

/// The bounding box of the triangle has no point in the buffer's rectangle
/// `[0, w) x [0, h)`.
pub open spec fn box_outside(v0: Vec4, v1: Vec4, v2: Vec4, w: int, h: int) -> bool {
    ||| max3(v0.x as int, v1.x as int, v2.x as int) < 0
    ||| min3(v0.x as int, v1.x as int, v2.x as int) >= w * ONE
    ||| max3(v0.y as int, v1.y as int, v2.y as int) < 0
    ||| min3(v0.y as int, v1.y as int, v2.y as int) >= h * ONE
}

/// A triangle whose bounding box lies outside the buffer writes no pixel,
/// whatever the cull mode.
pub proof fn lemma_outside_writes_nothing(
    mode: CullMode,
    v0: Vec4,
    v1: Vec4,
    v2: Vec4,
    w: int,
    h: int,
    x: int,
    y: int,
)
    requires
        box_outside(v0, v1, v2, w, h),
    ensures
        !triangle_writes(mode, v0, v1, v2, w, h, x, y),
{
}

/// With no culling, a triangle that is not degenerate writes exactly the
/// pixels of the buffer whose centers pass the three edge tests, and those are
/// the pixels that the barycentric check accepts.
pub proof fn lemma_written_iff_inside(v0: Vec4, v1: Vec4, v2: Vec4, w: int, h: int, x: int, y: int)
    requires
        signed_area(v0, v1, v2) != 0,
    ensures
        triangle_writes(CullMode::Off, v0, v1, v2, w, h, x, y) <==> (0 <= x < w && 0 <= y < h
            && passes_edge_tests(v0, v1, v2, x, y)),
        passes_edge_tests(v0, v1, v2, x, y) <==> barycentric_inside(v0, v1, v2, x, y),
{
    let px = center(x);
    let py = center(y);
    let area = signed_area(v0, v1, v2);
    lemma_sign(edge(v1, v2, px, py), area);
    lemma_sign(edge(v2, v0, px, py), area);
    lemma_sign(edge(v0, v1, px, py), area);
    lemma_edge_reversed(v0.x as int, v0.y as int, v1.x as int, v1.y as int, px, py);
    lemma_edge_reversed(v2.x as int, v2.y as int, v0.x as int, v0.y as int, px, py);
    lemma_edge_reversed(v1.x as int, v1.y as int, v2.x as int, v2.y as int, px, py);
    if area < 0 {
        lemma_edge_reversed(
            v0.x as int,
            v0.y as int,
            v1.x as int,
            v1.y as int,
            v2.x as int,
            v2.y as int,
        );
        lemma_barycentric(
            v1.x as int,
            v1.y as int,
            v0.x as int,
            v0.y as int,
            v2.x as int,
            v2.y as int,
            v2.x as int,
            v2.y as int,
            edge(v1, v0, v2.x as int, v2.y as int),
            edge(v0, v2, v2.x as int, v2.y as int),
            edge(v2, v1, v2.x as int, v2.y as int),
            signed_area(v1, v0, v2),
        );
        assert(signed_area(v1, v0, v2) > 0);
        if inside(v1, v0, v2, x, y) && 0 <= x < w && 0 <= y < h {
            lemma_inside_in_box(v1, v0, v2, w, h, x, y);
        }
    } else {
        if inside(v0, v1, v2, x, y) && 0 <= x < w && 0 <= y < h {
            lemma_inside_in_box(v0, v1, v2, w, h, x, y);
        }
    }
}

/// Of the two culling modes, the one named after the triangle's winding
/// discards it and writes nothing, and the other writes what no culling
/// writes.
pub proof fn lemma_cull_modes(v0: Vec4, v1: Vec4, v2: Vec4, w: int, h: int, x: int, y: int)
    ensures
        is_ccw(v0, v1, v2) ==> !triangle_writes(CullMode::Counterclockwise, v0, v1, v2, w, h, x, y)
            && triangle_writes(CullMode::Clockwise, v0, v1, v2, w, h, x, y) == triangle_writes(
            CullMode::Off,
            v0,
            v1,
            v2,
            w,
            h,
            x,
            y,
        ),
        !is_ccw(v0, v1, v2) ==> !triangle_writes(CullMode::Clockwise, v0, v1, v2, w, h, x, y)
            && triangle_writes(CullMode::Counterclockwise, v0, v1, v2, w, h, x, y)
            == triangle_writes(CullMode::Off, v0, v1, v2, w, h, x, y),
{
}

/// A command whose triangles all have their bounding box outside the buffer
/// writes no pixel.
pub proof fn lemma_command_outside(command: DrawCommand, w: int, h: int, x: int, y: int)
    requires
        forall|k: int|
            0 <= k < command.triangles() ==> box_outside(
                #[trigger] command.vertex(3 * k),
                command.vertex(3 * k + 1),
                command.vertex(3 * k + 2),
                w,
                h,
            ),
    ensures
        !command.writes(w, h, x, y),
{
    assert forall|k: int| 0 <= k < command.triangles() implies !#[trigger] command.covers(
        k,
        w,
        h,
        x,
        y,
    ) by {
        assert(box_outside(
            command.vertex(3 * k),
            command.vertex(3 * k + 1),
            command.vertex(3 * k + 2),
            w,
            h,
        ));
    }
}

/// A command of one triangle that is not degenerate, drawn without culling,
/// writes exactly the pixels of the buffer that the barycentric check
/// accepts.
pub proof fn lemma_command_written_iff_inside(
    command: DrawCommand,
    w: int,
    h: int,
    x: int,
    y: int,
)
    requires
        command.triangles() == 1,
        command.cull_mode == CullMode::Off,
        signed_area(command.vertex(0), command.vertex(1), command.vertex(2)) != 0,
    ensures
        command.writes(w, h, x, y) <==> (0 <= x < w && 0 <= y < h && barycentric_inside(
            command.vertex(0),
            command.vertex(1),
            command.vertex(2),
            x,
            y,
        )),
{
    lemma_single_triangle(command, w, h, x, y);
    lemma_written_iff_inside(command.vertex(0), command.vertex(1), command.vertex(2), w, h, x, y);
}

/// Three commands of one triangle that differ in the cull mode alone: the
/// mode named after the triangle's winding writes nothing, and the other
/// writes what no culling writes.
pub proof fn lemma_command_cull_modes(
    off: DrawCommand,
    clockwise: DrawCommand,
    counterclockwise: DrawCommand,
    w: int,
    h: int,
    x: int,
    y: int,
)
    requires
        off.triangles() == 1,
        off.cull_mode == CullMode::Off,
        clockwise.cull_mode == CullMode::Clockwise,
        counterclockwise.cull_mode == CullMode::Counterclockwise,
        clockwise.mesh.positions@ == off.mesh.positions@,
        counterclockwise.mesh.positions@ == off.mesh.positions@,
        clockwise.transform == off.transform,
        counterclockwise.transform == off.transform,
    ensures
        is_ccw(off.vertex(0), off.vertex(1), off.vertex(2)) ==> !counterclockwise.writes(w, h, x, y)
            && clockwise.writes(w, h, x, y) == off.writes(w, h, x, y),
        !is_ccw(off.vertex(0), off.vertex(1), off.vertex(2)) ==> !clockwise.writes(w, h, x, y)
            && counterclockwise.writes(w, h, x, y) == off.writes(w, h, x, y),
{
    lemma_single_triangle(off, w, h, x, y);
    lemma_single_triangle(clockwise, w, h, x, y);
    lemma_single_triangle(counterclockwise, w, h, x, y);
    lemma_cull_modes(off.vertex(0), off.vertex(1), off.vertex(2), w, h, x, y);
}

/// A command of one triangle writes the pixels that this triangle writes.
pub proof fn lemma_single_triangle(command: DrawCommand, w: int, h: int, x: int, y: int)
    requires
        command.triangles() == 1,
    ensures
        command.writes(w, h, x, y) == command.covers(0, w, h, x, y),
{
}

/// A command without a whole triangle writes no pixel.
pub proof fn lemma_empty_mesh(command: DrawCommand, w: int, h: int, x: int, y: int)
    requires
        command.triangles() == 0,
    ensures
        !command.writes(w, h, x, y),
{
}

} // verus!

use cpu_rasterizer::rasterizer::{
    Color, CullMode, DrawCommand, ImageView, Mat4x4, Mesh, Vec3, Vec4, FRAC_BITS, HALF, ONE,
};

const RED: Color = Color { r: 255, g: 0, b: 0, a: 255 };
const BLANK: Color = Color { r: 0, g: 0, b: 0, a: 0 };

fn px(n: i32) -> i32 {
    n * ONE
}

fn point(x: i32, y: i32) -> Vec3 {
    Vec3::new(px(x), px(y), 0)
}

fn red() -> Vec4 {
    Vec4::new(ONE as i64, 0, 0, ONE as i64)
}

fn pixel(buffer: &[u8], width: usize, x: usize, y: usize) -> Color {
    let i: usize = 4 * (x + y * width);
    Color { r: buffer[i], g: buffer[i + 1], b: buffer[i + 2], a: buffer[i + 3] }
}

fn draw_one(buffer: &mut [u8], width: u32, height: u32, points: &[Vec3], mode: CullMode) {
    let mut view = ImageView::from_pixel_buffer(buffer, width, height);
    let command = DrawCommand {
        mesh: Mesh { positions: points, color: red() },
        cull_mode: mode,
        transform: Mat4x4::identity(),
    };
    view.draw(&command);
}

/// The barycentric weights of a pixel's center, computed on the raw coordinates.
fn barycentric_inside(a: (i64, i64), b: (i64, i64), c: (i64, i64), x: i64, y: i64) -> bool {
    let cx: i128 = (x * 65536 + 32768) as i128;
    let cy: i128 = (y * 65536 + 32768) as i128;
    let edge = |p: (i64, i64), q: (i64, i64)| -> i128 {
        (q.0 - p.0) as i128 * (cy - p.1 as i128) - (q.1 - p.1) as i128 * (cx - p.0 as i128)
    };
    let area: i128 = (b.0 - a.0) as i128 * (c.1 - a.1) as i128
        - (b.1 - a.1) as i128 * (c.0 - a.0) as i128;
    if area == 0 {
        return false;
    }
    let w0: i128 = edge(b, c) * area;
    let w1: i128 = edge(c, a) * area;
    let w2: i128 = edge(a, b) * area;
    w0 >= 0 && w1 >= 0 && w2 >= 0
}

#[test]
fn scale_constants() {
    assert_eq!(FRAC_BITS, 16);
    assert_eq!(ONE, 1 << 16);
    assert_eq!(HALF * 2, ONE);
}

#[test]
fn vec3_new_keeps_components() {
    let v = Vec3::new(1, -2, 3);
    assert_eq!((v.x, v.y, v.z), (1, -2, 3));
}

#[test]
fn as_vector_has_zero_w() {
    let v = Vec3::new(px(2), px(-5), 7).as_vector();
    assert_eq!((v.x, v.y, v.z, v.w), (131072, -327680, 7, 0));
}

#[test]
fn as_point_has_unit_w() {
    let v = Vec3::new(px(2), px(-5), 7).as_point();
    assert_eq!((v.x, v.y, v.z, v.w), (131072, -327680, 7, 65536));
}

#[test]
fn vec4_new_keeps_components() {
    let v = Vec4::new(1, 2, 3, 4);
    assert_eq!((v.x, v.y, v.z, v.w), (1, 2, 3, 4));
}

#[test]
fn det_2d_is_the_cross_product() {
    let a = Vec4::new(3, 4, 100, 100);
    let b = Vec4::new(5, 6, -100, -100);
    assert_eq!(a.det_2d(&b), 3 * 6 - 4 * 5);
    assert_eq!(b.det_2d(&a), 2);
    assert_eq!(a.det_2d(&a), 0);
}

#[test]
fn det_2d_of_extreme_components_does_not_wrap() {
    let a = Vec4::new(i64::MIN, i64::MAX, 0, 0);
    let b = Vec4::new(i64::MIN, i64::MIN, 0, 0);
    let expected: i128 =
        (i64::MIN as i128) * (i64::MIN as i128) - (i64::MAX as i128) * (i64::MIN as i128);
    assert_eq!(a.det_2d(&b), expected);
}

#[test]
fn sub_is_component_wise() {
    let d = Vec4::new(10, 20, 30, 40) - Vec4::new(1, 22, 3, 44);
    assert_eq!((d.x, d.y, d.z, d.w), (9, -2, 27, -4));
}

#[test]
fn sub_saturates() {
    let d = Vec4::new(i64::MAX, i64::MIN, 0, -2) - Vec4::new(-1, 1, i64::MIN, i64::MAX);
    assert_eq!((d.x, d.y, d.z, d.w), (i64::MAX, i64::MIN, i64::MAX, i64::MIN));
}

#[test]
fn identity_entries() {
    let m = Mat4x4::identity();
    for r in 0..4usize {
        for c in 0..4usize {
            let expected: i32 = if r == c { ONE } else { 0 };
            assert_eq!(m.values[4 * r + c], expected);
        }
    }
}

#[test]
fn identity_leaves_a_vector() {
    let v = Mat4x4::identity() * Vec4::new(123456, -654321, 7, ONE as i64);
    assert_eq!((v.x, v.y, v.z, v.w), (123456, -654321, 7, 65536));
}

#[test]
fn identity_leaves_extreme_components() {
    let v = Mat4x4::identity() * Vec4::new(i64::MAX, i64::MIN, 0, -1);
    assert_eq!((v.x, v.y, v.z, v.w), (i64::MAX, i64::MIN, 0, -1));
}

#[test]
fn mat4x4_new_keeps_values() {
    let mut values = [0i32; 16];
    for i in 0..16usize {
        values[i] = i as i32 - 8;
    }
    let m = Mat4x4::new(values);
    assert_eq!(m.values, values);
}

#[test]
fn translation_moves_points_and_not_directions() {
    let mut values = Mat4x4::identity().values;
    values[3] = px(10);
    values[7] = px(-4);
    let m = Mat4x4::new(values);
    let p = m * Vec3::new(px(1), px(2), px(3)).as_point();
    assert_eq!((p.x, p.y, p.z, p.w), (px(11) as i64, px(-2) as i64, px(3) as i64, ONE as i64));
    let d = m * Vec3::new(px(1), px(2), px(3)).as_vector();
    assert_eq!((d.x, d.y, d.z, d.w), (px(1) as i64, px(2) as i64, px(3) as i64, 0));
}

#[test]
fn product_is_rows_times_column() {
    let mut values = [0i32; 16];
    for i in 0..16usize {
        values[i] = (i as i32 + 1) * ONE;
    }
    let m = Mat4x4::new(values);
    let v = m * Vec4::new(px(1) as i64, px(2) as i64, px(3) as i64, px(4) as i64);
    assert_eq!(v.x, px(1 + 4 + 9 + 16) as i64);
    assert_eq!(v.y, px(5 + 12 + 21 + 32) as i64);
    assert_eq!(v.z, px(9 + 20 + 33 + 48) as i64);
    assert_eq!(v.w, px(13 + 28 + 45 + 64) as i64);
}

#[test]
fn product_rounds_to_nearest() {
    let mut values = [0i32; 16];
    values[0] = HALF;
    values[5] = HALF;
    values[10] = ONE / 4;
    values[15] = ONE / 4;
    let m = Mat4x4::new(values);
    let v = m * Vec4::new(3, -3, 2, -2);
    // 1.5 and -1.5 round towards positive infinity, 0.5 and -0.5 too.
    assert_eq!((v.x, v.y, v.z, v.w), (2, -1, 1, 0));
    let u = m * Vec4::new(5, -5, 5, -5);
    assert_eq!((u.x, u.y, u.z, u.w), (3, -2, 1, -1));
}

#[test]
fn product_saturates() {
    let mut values = [0i32; 16];
    values[0] = i32::MAX;
    values[5] = i32::MIN;
    let m = Mat4x4::new(values);
    let v = m * Vec4::new(i64::MAX, i64::MAX, 0, 0);
    assert_eq!((v.x, v.y, v.z, v.w), (i64::MAX, i64::MIN, 0, 0));
}

#[test]
fn to_color_scales_by_255() {
    let c = Vec4::new(ONE as i64, 0, HALF as i64, (ONE / 4) as i64).to_color();
    assert_eq!(c, Color { r: 255, g: 0, b: 127, a: 63 });
}

#[test]
fn to_color_of_sky_blue() {
    let texel = |f: f64| -> i64 { (f * 65536.0).round() as i64 };
    let c = Vec4::new(texel(0.8), texel(0.9), texel(1.0), texel(1.0)).to_color();
    assert_eq!(c, Color { r: 204, g: 229, b: 255, a: 255 });
}

#[test]
fn to_color_clamps() {
    let c = Vec4::new(-1, 2 * ONE as i64, i64::MIN, i64::MAX).to_color();
    assert_eq!(c, Color { r: 0, g: 255, b: 0, a: 255 });
}

#[test]
fn to_color_just_below_one() {
    let c = Vec4::new(ONE as i64 - 1, 1, 257, 258).to_color();
    assert_eq!(c, Color { r: 254, g: 0, b: 0, a: 1 });
}

#[test]
fn channels_are_monotone() {
    let mut last: u8 = 0;
    let mut raw: i64 = -70000;
    while raw <= 140000 {
        let c = Vec4::new(raw, 0, 0, 0).to_color();
        assert!(c.r >= last);
        last = c.r;
        raw += 37;
    }
    assert_eq!(last, 255);
}

#[test]
fn channel_round_trip_keeps_order() {
    // A channel, packed and read back as a multiple of 1/255, keeps its order
    // with every other channel and never grows.
    let values: [f64; 7] = [0.0, 0.1, 0.25, 0.5, 0.50001, 0.9, 1.0];
    let mut previous: f64 = -1.0;
    for v in values {
        let raw: i64 = (v * 65536.0).round() as i64;
        let byte: u8 = Vec4::new(raw, 0, 0, 0).to_color().r;
        let back: f64 = byte as f64 / 255.0;
        assert!(back >= previous);
        assert!(back <= v + 1e-9);
        assert!(v - back < 1.0 / 255.0 + 1e-4);
        previous = back;
    }
}

#[test]
fn view_keeps_its_size() {
    let mut buffer = vec![0u8; 4 * 5 * 7];
    let view = ImageView::from_pixel_buffer(&mut buffer, 5, 7);
    assert_eq!(view.width, 5);
    assert_eq!(view.height, 7);
    assert_eq!(view.pixels.len(), 140);
}

#[test]
fn view_of_no_pixels() {
    let mut buffer: Vec<u8> = Vec::new();
    let mut view = ImageView::from_pixel_buffer(&mut buffer, 0, 9);
    view.clear(red());
    let points = [point(0, 0), point(3, 0), point(0, 3)];
    let command = DrawCommand {
        mesh: Mesh { positions: &points, color: red() },
        cull_mode: CullMode::Off,
        transform: Mat4x4::identity(),
    };
    view.draw(&command);
    assert!(buffer.is_empty());
}

#[test]
fn clear_fills_every_pixel() {
    let mut buffer = vec![7u8; 4 * 4 * 3];
    {
        let mut view = ImageView::from_pixel_buffer(&mut buffer, 4, 3);
        view.clear(Vec4::new(ONE as i64, HALF as i64, 0, 3 * ONE as i64));
        for y in 0..3usize {
            for x in 0..4usize {
                assert_eq!(view.get(x, y), Color { r: 255, g: 127, b: 0, a: 255 });
            }
        }
    }
    for chunk in buffer.chunks(4) {
        assert_eq!(chunk.to_vec(), vec![255u8, 127, 0, 255]);
    }
}

#[test]
fn clear_writes_channels_in_order() {
    let mut buffer = vec![0u8; 8];
    let mut view = ImageView::from_pixel_buffer(&mut buffer, 2, 1);
    view.clear(Vec4::new(0, (ONE / 4) as i64, HALF as i64, ONE as i64));
    assert_eq!(buffer, vec![0u8, 63, 127, 255, 0, 63, 127, 255]);
}

#[test]
fn at_reads_the_pixel_in_row_major_order() {
    let mut buffer: Vec<u8> = (0..24u8).collect();
    let mut view = ImageView::from_pixel_buffer(&mut buffer, 3, 2);
    assert_eq!(view.at(0, 0).to_vec(), vec![0u8, 1, 2, 3]);
    assert_eq!(view.at(2, 0).to_vec(), vec![8u8, 9, 10, 11]);
    assert_eq!(view.at(0, 1).to_vec(), vec![12u8, 13, 14, 15]);
    assert_eq!(view.at(2, 1).to_vec(), vec![20u8, 21, 22, 23]);
}

#[test]
fn at_writes_one_pixel() {
    let mut buffer = vec![0u8; 24];
    {
        let mut view = ImageView::from_pixel_buffer(&mut buffer, 3, 2);
        let p = view.at(1, 1);
        p[0] = 9;
        p[1] = 8;
        p[2] = 7;
        p[3] = 6;
    }
    let mut expected = vec![0u8; 24];
    expected[16] = 9;
    expected[17] = 8;
    expected[18] = 7;
    expected[19] = 6;
    assert_eq!(buffer, expected);
}

#[test]
fn put_then_get() {
    let mut buffer = vec![0u8; 24];
    let mut view = ImageView::from_pixel_buffer(&mut buffer, 2, 3);
    let c = Color { r: 1, g: 2, b: 3, a: 4 };
    view.put(1, 2, c);
    assert_eq!(view.get(1, 2), c);
    assert_eq!(view.get(0, 2), BLANK);
    assert_eq!(view.get(1, 1), BLANK);
    assert_eq!(pixel(&buffer, 2, 1, 2), c);
    assert_eq!(buffer[..20].to_vec(), vec![0u8; 20]);
}

#[test]
fn right_triangle_on_three_by_three() {
    let mut buffer = vec![0u8; 36];
    {
        let mut view = ImageView::from_pixel_buffer(&mut buffer, 3, 3);
        view.clear(Vec4::new(0, 0, 0, 0));
    }
    let points = [point(0, 0), point(3, 0), point(0, 3)];
    draw_one(&mut buffer, 3, 3, &points, CullMode::Off);
    let painted: [(usize, usize); 6] = [(0, 0), (1, 0), (2, 0), (0, 1), (1, 1), (0, 2)];
    for y in 0..3usize {
        for x in 0..3usize {
            let expected = if painted.contains(&(x, y)) { RED } else { BLANK };
            assert_eq!(pixel(&buffer, 3, x, y), expected, "pixel ({}, {})", x, y);
        }
    }
    assert_eq!(pixel(&buffer, 3, 2, 1), BLANK);
    assert_eq!(pixel(&buffer, 3, 1, 2), BLANK);
    assert_eq!(pixel(&buffer, 3, 2, 2), BLANK);
}

#[test]
fn unwritten_pixels_keep_the_clear_color() {
    let mut buffer = vec![0u8; 36];
    {
        let mut view = ImageView::from_pixel_buffer(&mut buffer, 3, 3);
        view.clear(Vec4::new(0, ONE as i64, 0, ONE as i64));
    }
    let points = [point(0, 0), point(3, 0), point(0, 3)];
    draw_one(&mut buffer, 3, 3, &points, CullMode::Off);
    let green = Color { r: 0, g: 255, b: 0, a: 255 };
    assert_eq!(pixel(&buffer, 3, 0, 0), RED);
    assert_eq!(pixel(&buffer, 3, 2, 1), green);
    assert_eq!(pixel(&buffer, 3, 1, 2), green);
    assert_eq!(pixel(&buffer, 3, 2, 2), green);
}

#[test]
fn two_triangles_cover_the_buffer() {
    let sizes: [(u32, u32); 5] = [(1, 1), (4, 3), (3, 4), (7, 7), (16, 5)];
    for (w, h) in sizes {
        let mut buffer = vec![0u8; (4 * w * h) as usize];
        let (wi, hi) = (w as i32, h as i32);
        let points = [
            point(0, 0),
            point(wi, 0),
            point(wi, hi),
            point(0, 0),
            point(wi, hi),
            point(0, hi),
        ];
        draw_one(&mut buffer, w, h, &points, CullMode::Off);
        for chunk in buffer.chunks(4) {
            assert_eq!(chunk.to_vec(), vec![255u8, 0, 0, 255]);
        }
    }
}

#[test]
fn empty_mesh_changes_nothing() {
    let mut buffer: Vec<u8> = (0..48u8).collect();
    let before = buffer.clone();
    draw_one(&mut buffer, 4, 3, &[], CullMode::Off);
    assert_eq!(buffer, before);
}

#[test]
fn fewer_than_three_points_change_nothing() {
    let mut buffer: Vec<u8> = (0..48u8).collect();
    let before = buffer.clone();
    draw_one(&mut buffer, 4, 3, &[point(0, 0), point(4, 0)], CullMode::Off);
    assert_eq!(buffer, before);
}

#[test]
fn leftover_points_are_ignored() {
    let mut with_leftover = vec![0u8; 36];
    let mut without = vec![0u8; 36];
    let five = [point(0, 0), point(3, 0), point(0, 3), point(3, 3), point(0, 3)];
    draw_one(&mut with_leftover, 3, 3, &five, CullMode::Off);
    draw_one(&mut without, 3, 3, &five[..3], CullMode::Off);
    assert_eq!(with_leftover, without);
    assert_eq!(pixel(&with_leftover, 3, 2, 2), BLANK);
}

#[test]
fn triangle_outside_the_buffer_writes_nothing() {
    let outside: [[Vec3; 3]; 4] = [
        [point(-5, 0), point(-1, 0), point(-3, 3)],
        [point(4, 0), point(9, 0), point(4, 3)],
        [point(0, -7), point(3, -7), point(0, -1)],
        [point(0, 3), point(3, 3), point(0, 8)],
    ];
    for points in outside {
        for mode in [CullMode::Off, CullMode::Clockwise, CullMode::Counterclockwise] {
            let mut buffer: Vec<u8> = (0..48u8).collect();
            let before = buffer.clone();
            draw_one(&mut buffer, 4, 3, &points, mode);
            assert_eq!(buffer, before);
        }
    }
}

#[test]
fn triangle_partly_outside_is_clipped_to_the_buffer() {
    let mut buffer = vec![0u8; 4 * 4 * 4];
    let points = [point(-10, -10), point(30, -10), point(-10, 30)];
    draw_one(&mut buffer, 4, 4, &points, CullMode::Off);
    for chunk in buffer.chunks(4) {
        assert_eq!(chunk.to_vec(), vec![255u8, 0, 0, 255]);
    }
}

#[test]
fn written_pixels_are_those_inside() {
    let triangles: [[(i32, i32); 3]; 4] = [
        [(ONE / 2, ONE / 3), (7 * ONE + 100, 2 * ONE), (3 * ONE, 6 * ONE + 7)],
        [(3 * ONE, 6 * ONE + 7), (7 * ONE + 100, 2 * ONE), (ONE / 2, ONE / 3)],
        [(-2 * ONE, -ONE), (12 * ONE, 3 * ONE), (ONE, 11 * ONE)],
        [(HALF, HALF), (5 * ONE + HALF, HALF), (HALF, 5 * ONE + HALF)],
    ];
    for t in triangles {
        let points = [Vec3::new(t[0].0, t[0].1, 0), Vec3::new(t[1].0, t[1].1, 0), Vec3::new(
            t[2].0,
            t[2].1,
            0,
        )];
        let mut buffer = vec![0u8; 4 * 8 * 8];
        draw_one(&mut buffer, 8, 8, &points, CullMode::Off);
        let a = (t[0].0 as i64, t[0].1 as i64);
        let b = (t[1].0 as i64, t[1].1 as i64);
        let c = (t[2].0 as i64, t[2].1 as i64);
        let mut count: usize = 0;
        for y in 0..8usize {
            for x in 0..8usize {
                let inside = barycentric_inside(a, b, c, x as i64, y as i64);
                let expected = if inside { RED } else { BLANK };
                assert_eq!(pixel(&buffer, 8, x, y), expected, "pixel ({}, {})", x, y);
                if inside {
                    count += 1;
                }
            }
        }
        assert!(count > 0);
    }
}

#[test]
fn exactly_one_cull_mode_discards() {
    let clockwise = [point(0, 0), point(3, 0), point(0, 3)];
    let counterclockwise = [point(0, 0), point(0, 3), point(3, 0)];
    let mut unculled = vec![0u8; 36];
    draw_one(&mut unculled, 3, 3, &clockwise, CullMode::Off);
    assert_eq!(pixel(&unculled, 3, 0, 0), RED);

    let mut buffer = vec![0u8; 36];
    draw_one(&mut buffer, 3, 3, &clockwise, CullMode::Clockwise);
    assert_eq!(buffer, vec![0u8; 36]);
    draw_one(&mut buffer, 3, 3, &clockwise, CullMode::Counterclockwise);
    assert_eq!(buffer, unculled);

    let mut buffer = vec![0u8; 36];
    draw_one(&mut buffer, 3, 3, &counterclockwise, CullMode::Counterclockwise);
    assert_eq!(buffer, vec![0u8; 36]);
    draw_one(&mut buffer, 3, 3, &counterclockwise, CullMode::Clockwise);
    assert_eq!(buffer, unculled);

    let mut buffer = vec![0u8; 36];
    draw_one(&mut buffer, 3, 3, &counterclockwise, CullMode::Off);
    assert_eq!(buffer, unculled);
}

#[test]
fn culling_is_decided_per_triangle() {
    let points = [
        point(0, 0),
        point(2, 0),
        point(0, 2),
        point(4, 4),
        point(4, 2),
        point(2, 4),
    ];
    let mut all = vec![0u8; 64];
    draw_one(&mut all, 4, 4, &points, CullMode::Off);
    assert_eq!(pixel(&all, 4, 0, 0), RED);
    assert_eq!(pixel(&all, 4, 3, 3), RED);
    let mut first: Vec<u8> = vec![0u8; 64];
    draw_one(&mut first, 4, 4, &points[..3], CullMode::Off);
    let mut second: Vec<u8> = vec![0u8; 64];
    draw_one(&mut second, 4, 4, &points[3..], CullMode::Off);
    let mut kept = vec![0u8; 64];
    draw_one(&mut kept, 4, 4, &points, CullMode::Clockwise);
    let mut other = vec![0u8; 64];
    draw_one(&mut other, 4, 4, &points, CullMode::Counterclockwise);
    assert!((kept == first && other == second) || (kept == second && other == first));
    assert_ne!(kept, other);
}

#[test]
fn degenerate_triangles_do_not_fail() {
    let cases: [[Vec3; 3]; 3] = [
        [point(1, 1), point(1, 1), point(1, 1)],
        [point(0, 0), point(2, 2), point(4, 4)],
        [point(0, 1), point(4, 1), point(2, 1)],
    ];
    for points in cases {
        for mode in [CullMode::Off, CullMode::Clockwise, CullMode::Counterclockwise] {
            let mut buffer = vec![0u8; 64];
            draw_one(&mut buffer, 4, 4, &points, mode);
            for chunk in buffer.chunks(4) {
                let bytes = chunk.to_vec();
                assert!(bytes == vec![0u8, 0, 0, 0] || bytes == vec![255u8, 0, 0, 255]);
            }
        }
    }
}

#[test]
fn point_triangle_on_a_pixel_corner_writes_nothing() {
    let points = [point(1, 1), point(1, 1), point(1, 1)];
    let mut buffer = vec![0u8; 64];
    draw_one(&mut buffer, 4, 4, &points, CullMode::Off);
    assert_eq!(buffer, vec![0u8; 64]);
}

#[test]
fn point_triangle_within_a_pixel_writes_that_pixel() {
    let p = Vec3::new(ONE + 5, 2 * ONE + 9, 0);
    let points = [p, p, p];
    let mut buffer = vec![0u8; 64];
    draw_one(&mut buffer, 4, 4, &points, CullMode::Off);
    for y in 0..4usize {
        for x in 0..4usize {
            let expected = if (x, y) == (1, 2) { RED } else { BLANK };
            assert_eq!(pixel(&buffer, 4, x, y), expected);
        }
    }
}

#[test]
fn later_draw_wins() {
    let mut buffer = vec![0u8; 36];
    let points = [point(0, 0), point(3, 0), point(0, 3)];
    let mut view = ImageView::from_pixel_buffer(&mut buffer, 3, 3);
    let first = DrawCommand {
        mesh: Mesh { positions: &points, color: red() },
        cull_mode: CullMode::Off,
        transform: Mat4x4::identity(),
    };
    let second = DrawCommand {
        mesh: Mesh { positions: &points, color: Vec4::new(0, 0, ONE as i64, ONE as i64) },
        cull_mode: CullMode::Off,
        transform: Mat4x4::identity(),
    };
    view.draw(&first);
    assert_eq!(view.get(0, 0), RED);
    view.draw(&second);
    assert_eq!(view.get(0, 0), Color { r: 0, g: 0, b: 255, a: 255 });
    assert_eq!(view.get(2, 2), BLANK);
}

#[test]
fn transform_is_applied_before_rasterizing() {
    let mut values = Mat4x4::identity().values;
    values[0] = 2 * ONE;
    values[5] = 2 * ONE;
    values[3] = px(1);
    let command_points = [point(0, 0), point(1, 0), point(0, 1)];
    let mut buffer = vec![0u8; 4 * 4 * 4];
    {
        let mut view = ImageView::from_pixel_buffer(&mut buffer, 4, 4);
        let command = DrawCommand {
            mesh: Mesh { positions: &command_points, color: red() },
            cull_mode: CullMode::Off,
            transform: Mat4x4::new(values),
        };
        view.draw(&command);
    }
    // The triangle lands on (1,0), (3,0), (1,2).
    let mut expected = vec![0u8; 4 * 4 * 4];
    let moved = [point(1, 0), point(3, 0), point(1, 2)];
    draw_one(&mut expected, 4, 4, &moved, CullMode::Off);
    assert_eq!(buffer, expected);
    assert_eq!(pixel(&buffer, 4, 1, 0), RED);
    assert_eq!(pixel(&buffer, 4, 2, 0), RED);
    assert_eq!(pixel(&buffer, 4, 1, 1), RED);
    assert_eq!(pixel(&buffer, 4, 0, 0), BLANK);
    assert_eq!(pixel(&buffer, 4, 2, 1), BLANK);
}

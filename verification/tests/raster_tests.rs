use termraster::fx::Fx;
use termraster::grid::Grid;
use termraster::raster::{check_inside, draw_triangle, edge_function, face_normal, ramp_index,
    shade_char, shade_intensity, to_screen};
use termraster::triangle::{Triangle, Vertex};
use termraster::vector3::Vector3;

fn fx(i: i64) -> Fx {
    Fx::from_int(i)
}

fn v3(x: i64, y: i64, z: i64) -> Vector3 {
    Vector3::new(fx(x), fx(y), fx(z))
}

fn tri_at(ax: i64, ay: i64, bx: i64, by: i64, cx: i64, cy: i64, z: Fx) -> Triangle {
    Triangle::new(
        Vertex::from_pos(Vector3::new(fx(ax), fx(ay), z)),
        Vertex::from_pos(Vector3::new(fx(bx), fx(by), z)),
        Vertex::from_pos(Vector3::new(fx(cx), fx(cy), z)),
    )
}

fn fresh_buffers(w: usize, h: usize) -> (Grid<char>, Grid<Fx>) {
    (Grid::new('.', w, h), Grid::new(Fx { raw: i64::MAX }, w, h))
}

#[test]
fn triangle_fill_matches_reference_test() {
    // rasterizing (0,0)-(10,0)-(0,10) into a 20x20 grid fills exactly
    // the pixels with x >= 0, y >= 0, x + y <= 10
    let (mut color, mut depth) = fresh_buffers(20, 20);
    let t = tri_at(0, 0, 10, 0, 0, 10, Fx::from_ratio(1, 2));
    draw_triangle(&mut color, &mut depth, &t, '#');
    for y in 0..20usize {
        for x in 0..20usize {
            let expected = x + y <= 10;
            let got = *color.get(x, y).unwrap() == '#';
            assert_eq!(got, expected);
        }
    }
}

#[test]
fn overlap_order_independence_test() {
    // two overlapping triangles at different depths show the nearer
    // one on every overlapping pixel, whatever the submission order
    let near = tri_at(0, 0, 10, 0, 0, 10, Fx::from_ratio(1, 4));
    let far = tri_at(2, 0, 12, 0, 2, 10, Fx::from_ratio(3, 4));

    let (mut c1, mut d1) = fresh_buffers(20, 20);
    draw_triangle(&mut c1, &mut d1, &near, 'n');
    draw_triangle(&mut c1, &mut d1, &far, 'f');

    let (mut c2, mut d2) = fresh_buffers(20, 20);
    draw_triangle(&mut c2, &mut d2, &far, 'f');
    draw_triangle(&mut c2, &mut d2, &near, 'n');

    let mut overlap: usize = 0;
    for y in 0..20usize {
        for x in 0..20usize {
            assert_eq!(*c1.get(x, y).unwrap(), *c2.get(x, y).unwrap());
            assert_eq!(d1.get(x, y).unwrap().raw, d2.get(x, y).unwrap().raw);
            if *c1.get(x, y).unwrap() == 'n' && x >= 2 && x + y <= 10 {
                overlap += 1;
            }
        }
    }
    // the overlap region exists and shows the nearer triangle
    assert!(overlap > 0);
    assert_eq!(*c1.get(3, 1).unwrap(), 'n');
}

#[test]
fn depth_range_reject_test() {
    // all three projected z outside [0, 1]: zero pixel writes
    let (mut color, mut depth) = fresh_buffers(20, 20);
    let t = tri_at(0, 0, 10, 0, 0, 10, fx(2));
    draw_triangle(&mut color, &mut depth, &t, '#');
    for y in 0..20usize {
        for x in 0..20usize {
            assert_eq!(*color.get(x, y).unwrap(), '.');
            assert_eq!(depth.get(x, y).unwrap().raw, i64::MAX);
        }
    }
    let below = tri_at(0, 0, 10, 0, 0, 10, fx(-1));
    draw_triangle(&mut color, &mut depth, &below, '#');
    for y in 0..20usize {
        for x in 0..20usize {
            assert_eq!(*color.get(x, y).unwrap(), '.');
        }
    }
}

#[test]
fn degenerate_triangle_test() {
    // a zero-area (collinear) triangle writes nothing and leaves the
    // depth buffer without any garbage value
    let (mut color, mut depth) = fresh_buffers(20, 20);
    let t = tri_at(0, 0, 5, 5, 10, 10, Fx::from_ratio(1, 2));
    draw_triangle(&mut color, &mut depth, &t, '#');
    for y in 0..20usize {
        for x in 0..20usize {
            assert_eq!(*color.get(x, y).unwrap(), '.');
            assert_eq!(depth.get(x, y).unwrap().raw, i64::MAX);
        }
    }
}

#[test]
fn bounding_box_clamp_test() {
    // the box is clamped into [0, width] x [0, height], never wrapped
    let t = tri_at(-5, -7, 30, 2, 4, 50, fx(0));
    let (min_x, min_y, max_x, max_y) = t.get_bounding_box(20, 20);
    assert_eq!(min_x, 0);
    assert_eq!(min_y, 0);
    assert_eq!(max_x, 20);
    assert_eq!(max_y, 20);
    let inner = tri_at(2, 3, 7, 3, 2, 9, fx(0));
    assert_eq!(inner.get_bounding_box(20, 20), (2, 3, 7, 9));
}

#[test]
fn edge_function_test() {
    // twice the signed area of (0,0)-(4,0)-(0,3) is 12
    let a = v3(0, 0, 0);
    let b = v3(4, 0, 0);
    let c = v3(0, 3, 0);
    assert_eq!(edge_function(&a, &b, &c), fx(12));
    assert_eq!(edge_function(&a, &c, &b), fx(-12));
}

#[test]
fn check_inside_test() {
    let t = tri_at(0, 0, 10, 0, 0, 10, fx(0));
    assert!(check_inside(&t, &v3(2, 2, 0)));
    assert!(check_inside(&t, &v3(0, 0, 0)));
    assert!(check_inside(&t, &v3(5, 5, 0)));
    assert!(!check_inside(&t, &v3(6, 6, 0)));
    assert!(!check_inside(&t, &v3(-1, 2, 0)));
    // winding-order agnostic: the reversed triangle accepts the same points
    let r = tri_at(0, 0, 0, 10, 10, 0, fx(0));
    assert!(check_inside(&r, &v3(2, 2, 0)));
    assert!(!check_inside(&r, &v3(6, 6, 0)));
}

#[test]
fn ramp_index_test() {
    // round(intensity * (len - 1))
    assert_eq!(ramp_index(Fx { raw: 0 }, 12), 0);
    assert_eq!(ramp_index(Fx::one(), 12), 11);
    assert_eq!(ramp_index(Fx::from_ratio(1, 2), 11), 5);
    assert_eq!(ramp_index(Fx::from_ratio(1, 2), 2), 1);
    assert_eq!(ramp_index(Fx::from_ratio(1, 4), 2), 0);
}

#[test]
fn shade_intensity_extremes_test() {
    // light opposite the normal: clamped to 0
    let n = v3(0, 0, 1);
    let dark = shade_intensity(&n, &v3(0, 0, -1));
    assert_eq!(dark.raw, 0);
    // light straight along the normal: clamped to 1
    let bright = shade_intensity(&n, &v3(0, 0, 3));
    assert_eq!(bright, Fx::one());
}

#[test]
fn shade_char_picks_ramp_ends_test() {
    let ramp: Vec<char> = vec![' ', '.', ':', '=', '#'];
    let n = v3(0, 0, 1);
    assert_eq!(shade_char(&n, &v3(0, 0, -1), &ramp), ' ');
    assert_eq!(shade_char(&n, &v3(0, 0, 3), &ramp), '#');
}

#[test]
fn to_screen_center_test() {
    // NDC origin lands at the middle of a 30x30 grid: 14.5 pixels
    let p = to_screen(&v3(0, 0, 0), 30, 30);
    assert_eq!(p.x.raw, 950272);
    assert_eq!(p.y.raw, 950272);
    // NDC (-1, 1) is the top-left pixel (0, 0)
    let tl = to_screen(&Vector3::new(fx(-1), fx(1), fx(0)), 30, 30);
    assert_eq!(tl.x.raw, 0);
    assert_eq!(tl.y.raw, 0);
}

#[test]
fn face_normal_test() {
    let t = tri_at(0, 0, 4, 0, 0, 4, fx(0));
    // counter-clockwise in x/y: the normal points along +z
    let n = face_normal(&t).unwrap();
    assert_eq!(n, v3(0, 0, 1));
    // collinear points have no normal
    let degenerate = tri_at(0, 0, 1, 1, 2, 2, fx(0));
    assert!(face_normal(&degenerate).is_none());
}

#[test]
fn partial_cover_writes_depth_test() {
    // covered pixels receive the interpolated depth; others keep the
    // far sentinel
    let (mut color, mut depth) = fresh_buffers(8, 8);
    let t = tri_at(0, 0, 4, 0, 0, 4, Fx::from_ratio(1, 2));
    draw_triangle(&mut color, &mut depth, &t, '#');
    let one3 = 65536i64 * 65536 * 65536;
    for y in 0..8usize {
        for x in 0..8usize {
            let d = depth.get(x, y).unwrap().raw;
            if *color.get(x, y).unwrap() == '#' {
                assert!(0 <= d && d <= one3);
            } else {
                assert_eq!(d, i64::MAX);
            }
        }
    }
    // a flat triangle at depth 1/2 interpolates to exactly 1/2 scaled
    assert_eq!(depth.get(1, 1).unwrap().raw, 32768);
}

use wireframe::geom::{Point3, Pixel, Segment, DrawCmd, RenderError, SCALE};
use wireframe::mesh::Mesh;
use wireframe::transform::{Mat4, rect_transform, spin_angle_nanodeg, SPIN_PERIOD_NANOS, to_pixel};
use wireframe::frame::{render, render_frame};

fn fp(units: i64) -> i64 {
    units * SCALE
}

#[test]
fn edges_counts_three_per_triangle() {
    // Two triangles sharing an edge: 4 vertices, 6 segments, no deduplication.
    let mesh = Mesh {
        positions: vec![
            fp(0), fp(0), fp(0), // v0
            fp(1), fp(0), fp(0), // v1
            fp(1), fp(1), fp(0), // v2
            fp(0), fp(1), fp(0), // v3
        ],
        indices: vec![0, 1, 2, 0, 2, 3],
    };
    let segs = mesh.edges().expect("well-formed mesh");
    assert_eq!(segs.len(), 6);
    let v0 = Point3::new(fp(0), fp(0), fp(0));
    let v1 = Point3::new(fp(1), fp(0), fp(0));
    let v2 = Point3::new(fp(1), fp(1), fp(0));
    let v3 = Point3::new(fp(0), fp(1), fp(0));
    assert_eq!(segs[0], Segment { a: v0, b: v1 });
    assert_eq!(segs[1], Segment { a: v1, b: v2 });
    assert_eq!(segs[2], Segment { a: v2, b: v0 });
    assert_eq!(segs[3], Segment { a: v0, b: v2 });
    assert_eq!(segs[4], Segment { a: v2, b: v3 });
    assert_eq!(segs[5], Segment { a: v3, b: v0 });
}

#[test]
fn edges_rejects_bad_index() {
    let mesh = Mesh {
        positions: vec![fp(0), fp(0), fp(0), fp(1), fp(0), fp(0), fp(1), fp(1), fp(0)],
        indices: vec![0, 1, 9],
    };
    assert_eq!(mesh.edges(), Err(RenderError::MalformedMesh));
}

#[test]
fn edges_ignores_trailing_indices() {
    let mesh = Mesh {
        positions: vec![fp(0), fp(0), fp(0), fp(1), fp(0), fp(0), fp(1), fp(1), fp(0)],
        indices: vec![0, 1, 2, 0],
    };
    let segs = mesh.edges().expect("well-formed mesh");
    assert_eq!(segs.len(), 3);
}

#[test]
fn get_position_reads_vertices() {
    let mesh = Mesh {
        positions: vec![fp(1), fp(2), fp(3), fp(4), fp(5), fp(6)],
        indices: vec![],
    };
    assert_eq!(mesh.get_position(0), Some(Point3::new(fp(1), fp(2), fp(3))));
    assert_eq!(mesh.get_position(1), Some(Point3::new(fp(4), fp(5), fp(6))));
    assert_eq!(mesh.get_position(2), None);
}

#[test]
fn projection_truncates_toward_zero() {
    // 3.9 world units is 39_000 fixed-point units; truncation toward zero
    // must give pixel 3 for 3.9 and -3 for -3.9, never 4 or -4.
    let m = Mat4::identity();
    let px = m.project(Point3::new(39_000, -39_000, 0)).expect("in range");
    assert_eq!(px, Pixel { x: 3, y: -3 });
    let px2 = m.project(Point3::new(-39_000, 39_000, 0)).expect("in range");
    assert_eq!(px2, Pixel { x: -3, y: 3 });
}

#[test]
fn projection_rejects_out_of_range_point() {
    let m = Mat4::identity();
    assert_eq!(
        m.project(Point3::new(i64::MAX, 0, 0)),
        Err(RenderError::NumericOverflow)
    );
}

#[test]
fn to_pixel_rejects_coordinates_past_i32() {
    let far: i64 = 1_000_000_000_000_000;
    assert_eq!(
        to_pixel(Point3::new(far, 0, 0)),
        Err(RenderError::NumericOverflow)
    );
    assert_eq!(
        to_pixel(Point3::new(fp(3), fp(4), fp(5))),
        Ok(Pixel { x: 3, y: 4 })
    );
}

#[test]
fn unrepresentable_segment_is_skipped_alone() {
    // The middle segment cannot be projected; the frame still renders the
    // other two, exactly as if the bad segment were absent.
    let m = Mat4::identity();
    let good1 = Segment { a: Point3::new(fp(1), fp(1), 0), b: Point3::new(fp(2), fp(1), 0) };
    let bad = Segment { a: Point3::new(i64::MAX, 0, 0), b: Point3::new(fp(5), fp(5), 0) };
    let good2 = Segment { a: Point3::new(fp(3), fp(4), 0), b: Point3::new(fp(3), fp(7), 0) };
    let with_bad = render_frame(&m, &vec![good1, bad, good2]);
    let without_bad = render_frame(&m, &vec![good1, good2]);
    assert_eq!(with_bad.len(), 2);
    assert_eq!(with_bad, without_bad);
}

#[test]
fn static_square_draws_four_lines() {
    // The four sides of the 1024x768 canvas's centered rectangle, drawn
    // TL->TR, TR->BR, BR->BL, BL->TL: exactly four draw calls, closed.
    let m = Mat4::identity();
    let tl = Point3::new(fp(100), fp(100), 0);
    let tr = Point3::new(fp(924), fp(100), 0);
    let br = Point3::new(fp(924), fp(668), 0);
    let bl = Point3::new(fp(100), fp(668), 0);
    let sides = vec![
        Segment { a: tl, b: tr },
        Segment { a: tr, b: br },
        Segment { a: br, b: bl },
        Segment { a: bl, b: tl },
    ];
    let cmds = render_frame(&m, &sides);
    assert_eq!(cmds.len(), 4);
    let ptl = Pixel { x: 100, y: 100 };
    let ptr = Pixel { x: 924, y: 100 };
    let pbr = Pixel { x: 924, y: 668 };
    let pbl = Pixel { x: 100, y: 668 };
    assert_eq!(cmds[0], DrawCmd { p1: ptl, p2: ptr });
    assert_eq!(cmds[1], DrawCmd { p1: ptr, p2: pbr });
    assert_eq!(cmds[2], DrawCmd { p1: pbr, p2: pbl });
    assert_eq!(cmds[3], DrawCmd { p1: pbl, p2: ptl });
    // Closed outline: each side starts where the previous one ended.
    assert_eq!(cmds[3].p2, cmds[0].p1);
}

#[test]
fn spin_angle_is_periodic() {
    // angle(t + 360/rate) == angle(t) modulo a full turn.
    for t in [0u64, 1, 999_999_937, 3_999_999_999, 123_456_789_012] {
        assert_eq!(
            spin_angle_nanodeg(t),
            spin_angle_nanodeg(t + SPIN_PERIOD_NANOS)
        );
    }
    // 90 degrees per second: after one second the angle is 90 degrees.
    assert_eq!(spin_angle_nanodeg(1_000_000_000), 90_000_000_000);
}

#[test]
fn rect_transform_is_translation_at_zero_angle() {
    // At t = 0 the rotation is the identity, so the composed transform just
    // translates every point by canvas_center - shape_center.
    let canvas_center = Point3::new(fp(512), fp(384), 0);
    let shape_center = Point3::new(fp(100), fp(50), 0);
    let m = rect_transform(SCALE, 0, canvas_center, shape_center).expect("fits");
    let p = Point3::new(fp(2), fp(3), fp(4));
    let q = m.transform_point(p).expect("fits");
    assert_eq!(q, Point3::new(fp(2 + 512 - 100), fp(3 + 384 - 50), fp(4)));
}

#[test]
fn spinning_render_at_start() {
    // At t = 0 the spin is the identity: a point one unit along x is scaled
    // by 100, flipped 180 degrees about z and centered: 512 - 100 = 412.
    let segs = vec![Segment {
        a: Point3::new(fp(1), 0, 0),
        b: Point3::new(0, 0, 0),
    }];
    let cmds = render(&segs, SCALE, 0);
    assert_eq!(cmds.len(), 1);
    assert_eq!(cmds[0].p1, Pixel { x: 412, y: 384 });
    assert_eq!(cmds[0].p2, Pixel { x: 512, y: 384 });
}

#[test]
fn compose_translations_adds_offsets() {
    let a = Mat4::translation(Point3::new(fp(10), fp(20), fp(30)));
    let b = Mat4::translation(Point3::new(fp(1), fp(2), fp(3)));
    let c = a.compose(&b).expect("fits");
    let q = c.transform_point(Point3::new(fp(5), 0, 0)).expect("fits");
    assert_eq!(q, Point3::new(fp(16), fp(22), fp(33)));
}

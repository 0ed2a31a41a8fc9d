use tankview::pose::{BotPose, HEADING_UNITS};
use tankview::project::{
    build_quad, map_world_coord, project_bot, screen_angle_units, turret_screen_angle_units,
    unmap_world_coord, ScreenCoord, SpriteLayer, CORNER_X_LEFT, CORNER_X_RIGHT, CORNER_Y_BOTTOM,
    CORNER_Y_TOP, SPRITE_SCALE_DENOM, SPRITE_SCALE_NUMER, WORLD_PER_SCREEN,
};

/// Screen position of a coordinate, in screen units, as the display evaluates it.
fn screen_units(c: ScreenCoord) -> f64 {
    c.numer as f64 / WORLD_PER_SCREEN as f64
}

/// Coordinate mapping is map(x) = x / 8 + 500, exactly, and two calls on the
/// same input agree bit for bit.
#[test]
fn coordinate_mapping_is_exact_and_deterministic() {
    assert_eq!(screen_units(map_world_coord(0)), 500.0);
    assert_eq!(screen_units(map_world_coord(8)), 501.0);
    assert_eq!(screen_units(map_world_coord(-8)), 499.0);
    assert_eq!(screen_units(map_world_coord(4)), 500.5);
    assert_eq!(screen_units(map_world_coord(-4000)), 0.0);
    for x in [i32::MIN, -12345, -1, 0, 1, 7, 4096, i32::MAX] {
        assert_eq!(map_world_coord(x), map_world_coord(x));
        assert_eq!(map_world_coord(x).numer, x as i64 + 4000);
    }
}

/// The mapping is a bijection on its sampled domain: distinct inputs map to
/// distinct outputs, and the inverse recovers every input.
#[test]
fn coordinate_mapping_round_trips() {
    let mut last: Option<i64> = None;
    for x in [i32::MIN, -100, -1, 0, 1, 99, i32::MAX] {
        let c = map_world_coord(x);
        if let Some(prev) = last {
            assert_ne!(prev, c.numer);
        }
        last = Some(c.numer);
        assert_eq!(unmap_world_coord(c), x);
    }
}

/// Orientation wraps continuously: heading unit H - 1 and heading unit 0 map
/// to screen angles exactly 2 * pi / H apart (modulo a full turn).
#[test]
fn orientation_wraps_at_boundary() {
    let h = HEADING_UNITS;
    assert_eq!(screen_angle_units(h - 1), 1);
    assert_eq!(screen_angle_units(0), 0);
    let tau = std::f64::consts::TAU;
    let unit = tau / h as f64;
    let boundary = screen_angle_units(h - 1) as f64 * unit;
    let zero = screen_angle_units(0) as f64 * unit;
    let diff = (boundary - zero).rem_euclid(tau);
    assert!((diff - unit).abs() < 1e-12);
}

/// The negation of the heading reflects the world-to-screen handedness flip,
/// and the turret turns with the hull plus its own offset.
#[test]
fn orientation_mapping_negates_and_sums() {
    assert_eq!(screen_angle_units(1), HEADING_UNITS - 1);
    assert_eq!(screen_angle_units(256), 768);
    assert_eq!(screen_angle_units(512), 512);
    assert_eq!(screen_angle_units(HEADING_UNITS), 0);
    assert_eq!(screen_angle_units(HEADING_UNITS + 5), HEADING_UNITS - 5);
    assert_eq!(turret_screen_angle_units(0, 0), 0);
    assert_eq!(turret_screen_angle_units(512, 256), 256);
    // heading + offset wraps past a full turn.
    assert_eq!(turret_screen_angle_units(1023, 2), 1023);
    assert_eq!(turret_screen_angle_units(u32::MAX, u32::MAX), 2);
}

#[test]
fn quad_carries_fixed_corners_uvs_and_tint() {
    let q = build_quad(SpriteLayer::Turret, map_world_coord(0), map_world_coord(0), 37);
    assert_eq!(q.layer, SpriteLayer::Turret);
    assert_eq!(q.angle_units, 37);
    assert_eq!(q.scale_numer, SPRITE_SCALE_NUMER);
    assert_eq!(q.scale_denom, SPRITE_SCALE_DENOM);
    assert_eq!(q.vertices.len(), 4);
    let corners: Vec<(i32, i32)> = q.vertices.iter().map(|v| (v.local_x, v.local_y)).collect();
    assert_eq!(
        corners,
        vec![
            (CORNER_X_LEFT, CORNER_Y_TOP),
            (CORNER_X_RIGHT, CORNER_Y_TOP),
            (CORNER_X_LEFT, CORNER_Y_BOTTOM),
            (CORNER_X_RIGHT, CORNER_Y_BOTTOM),
        ]
    );
    let uvs: Vec<(u8, u8)> = q.vertices.iter().map(|v| (v.tex_u, v.tex_v)).collect();
    assert_eq!(uvs, vec![(0, 0), (1, 0), (0, 1), (1, 1)]);
    for v in &q.vertices {
        assert_eq!(
            (v.color.red, v.color.green, v.color.blue, v.color.alpha),
            (255, 255, 255, 255)
        );
    }
    assert_eq!(q.triangles, vec![(0, 1, 2), (1, 2, 3)]);
}

/// Quad generation invariant: rotating, scaling and translating the emitted
/// corners as the display does, then inverting those steps, reproduces the
/// fixed local corner set within floating-point tolerance.
#[test]
fn quad_corners_survive_rotation_round_trip() {
    for heading in [0u32, 1, 100, 511, 512, 777, 1023] {
        let pose = BotPose { x: 168, y: -88, heading, turret_offset: 300 };
        let (hull, turret) = project_bot(&pose);
        for q in [hull, turret] {
            let angle = q.angle_units as f64 * std::f64::consts::TAU / HEADING_UNITS as f64;
            let scale = q.scale_numer as f64 / q.scale_denom as f64;
            let (cx, cy) = (screen_units(q.center_x), screen_units(q.center_y));
            for v in &q.vertices {
                // Forward: what the display evaluates per vertex.
                let (lx, ly) = (v.local_x as f64, v.local_y as f64);
                let px = cx + scale * (lx * angle.cos() - ly * angle.sin());
                let py = cy + scale * (lx * angle.sin() + ly * angle.cos());
                // Inverse: translate back, unscale, rotate by the negation.
                let (dx, dy) = ((px - cx) / scale, (py - cy) / scale);
                let rx = dx * angle.cos() + dy * angle.sin();
                let ry = -dx * angle.sin() + dy * angle.cos();
                assert!((rx - lx).abs() < 1e-9, "x corner drifted: {rx} vs {lx}");
                assert!((ry - ly).abs() < 1e-9, "y corner drifted: {ry} vs {ly}");
            }
        }
    }
}

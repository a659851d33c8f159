use arcaders::geometry::{DrawRect, Rectangle};

fn rect(x: i64, y: i64, w: i64, h: i64) -> Rectangle {
    Rectangle { x, y, w, h }
}

#[test]
fn contained_rectangle_is_unchanged() {
    let r = rect(10_000, 20_000, 30_000, 30_000);
    let c = rect(0, 0, 100_000, 100_000);
    assert_eq!(r.move_inside(c), Some(r));
}

#[test]
fn overflow_low_pins_to_near_edge() {
    let r = rect(-5_000, -7_000, 20_000, 20_000);
    let c = rect(0, 0, 100_000, 100_000);
    assert_eq!(r.move_inside(c), Some(rect(0, 0, 20_000, 20_000)));
}

#[test]
fn overflow_high_aligns_far_edges() {
    let r = rect(95_000, 50_000, 20_000, 20_000);
    let c = rect(0, 0, 100_000, 100_000);
    assert_eq!(r.move_inside(c), Some(rect(80_000, 50_000, 20_000, 20_000)));
}

#[test]
fn axes_clamp_independently() {
    let r = rect(-5_000, 95_000, 20_000, 20_000);
    let c = rect(10_000, 10_000, 100_000, 100_000);
    assert_eq!(r.move_inside(c), Some(rect(10_000, 90_000, 20_000, 20_000)));
}

#[test]
fn too_wide_returns_none() {
    let r = rect(0, 0, 200_000, 20_000);
    let c = rect(0, 0, 100_000, 100_000);
    assert_eq!(r.move_inside(c), None);
}

#[test]
fn too_tall_returns_none() {
    let r = rect(0, 0, 20_000, 200_000);
    let c = rect(0, 0, 100_000, 100_000);
    assert_eq!(r.move_inside(c), None);
}

#[test]
fn flush_width_pins_to_container_x() {
    let c = rect(5_000, 0, 100_000, 100_000);
    for x in [-50_000i64, 5_000, 40_000, 105_000, 200_000] {
        let r = rect(x, 10_000, 100_000, 20_000);
        let clamped = r.move_inside(c).unwrap();
        assert_eq!(clamped.x, 5_000);
        assert!(clamped.x >= c.x && clamped.x <= c.x + c.w - r.w);
    }
}

#[test]
fn rectangle_flush_against_far_edge_stays_put() {
    // x + w == c.x + c.w exactly: treated as non-overflowing, not oscillated.
    let r = rect(80_000, 0, 20_000, 20_000);
    let c = rect(0, 0, 100_000, 100_000);
    assert_eq!(r.move_inside(c), Some(r));
}

#[test]
fn clamping_is_idempotent() {
    let r = rect(123_456, -99_999, 37_000, 41_000);
    let c = rect(-10_000, -10_000, 90_000, 90_000);
    let once = r.move_inside(c).unwrap();
    let twice = once.move_inside(c).unwrap();
    assert_eq!(once, twice);
    // Repeated calls with the same inputs never differ.
    assert_eq!(r.move_inside(c).unwrap(), once);
}

#[test]
fn to_sdl_truncates_toward_zero() {
    let r = rect(-5_000, 1_999, 2_999, 1_000);
    assert_eq!(r.to_sdl(), DrawRect { x: -5, y: 1, w: 2, h: 1 });
    let r2 = rect(-1_999, -1, 0, 999);
    assert_eq!(r2.to_sdl(), DrawRect { x: -1, y: 0, w: 0, h: 0 });
}

#[test]
fn to_sdl_exact_pixels() {
    let r = rect(64_000, 64_000, 32_000, 32_000);
    assert_eq!(r.to_sdl(), DrawRect { x: 64, y: 64, w: 32, h: 32 });
}

use coasters::catmull_rom::CatmullRom3;
use coasters::curve::GenericCurve;
use coasters::fx::{Fx, SCALE};
use coasters::linalg::Vec3;

fn v(x: i32, y: i32, z: i32) -> Vec3 {
    Vec3 { x: Fx::from_int(x), y: Fx::from_int(y), z: Fx::from_int(z) }
}

fn demo_track() -> Vec<Vec3> {
    vec![
        v(6, 12, 1),
        v(0, 8, 2),
        v(3, 4, 7),
        v(6, 0, 4),
        v(8, 4, 5),
        v(12, 2, 6),
        v(11, 10, 7),
        v(11, 19, 8),
    ]
}

#[test]
fn four_points_give_one_segment() {
    let cr = CatmullRom3::new(vec![v(0, 0, 0), v(1, 0, 0), v(2, 1, 0), v(3, 1, 1)]);
    assert_eq!(cr.coefs.len(), 1);
}

#[test]
fn n_points_give_n_minus_three_segments() {
    let cr = CatmullRom3::new(demo_track());
    assert_eq!(cr.coefs.len(), 5);
    let too_few = CatmullRom3::new(vec![v(0, 0, 0), v(1, 0, 0), v(2, 1, 0)]);
    assert_eq!(too_few.coefs.len(), 0);
}

#[test]
fn position_at_zero_is_second_point() {
    let cr = CatmullRom3::new(demo_track());
    let p = cr.p(Fx { raw: 0 });
    assert_eq!(p.x.raw, 0);
    assert_eq!(p.y.raw, 8 * SCALE);
    assert_eq!(p.z.raw, 2 * SCALE);
}

#[test]
fn position_at_one_is_second_to_last_point() {
    let cr = CatmullRom3::new(demo_track());
    let p = cr.p(Fx { raw: SCALE });
    assert_eq!(p.x.raw, 11 * SCALE);
    assert_eq!(p.y.raw, 10 * SCALE);
    assert_eq!(p.z.raw, 7 * SCALE);
}

#[test]
fn demo_track_evaluates_over_whole_interval() {
    // The index clamp keeps every evaluation in range over the closed
    // interval, including exactly 1 and a little beyond either end.
    let cr = CatmullRom3::new(demo_track());
    let mut k: i64 = -4;
    while k <= 24 {
        let u = Fx { raw: k * (SCALE / 20) };
        let p = cr.p(u);
        let d = cr.dp(u);
        let d2 = cr.d2p(u);
        assert!(p.x.raw.abs() < 200 * SCALE);
        assert!(d.x.raw > i64::MIN && d2.x.raw > i64::MIN);
        k += 1;
    }
}

#[test]
fn midpoint_value_is_reproducible() {
    let cr = CatmullRom3::new(demo_track());
    let p = cr.p(Fx { raw: SCALE / 2 });
    // Exact fixed-point value checked against the closed form:
    // segment 2 at local parameter 1/2.
    assert_eq!(p.x.raw as f64 / SCALE as f64, 6.9375);
    assert_eq!(p.y.raw as f64 / SCALE as f64, 1.875);
    assert_eq!(p.z.raw as f64 / SCALE as f64, 4.25);
}

#[test]
fn derivative_is_scaled_by_segment_count() {
    // A straight uniform polyline: dp is the constant chord scaled by the
    // segment count; with 4 collinear equidistant points there is one
    // segment and dp equals the chord direction.
    let cr = CatmullRom3::new(vec![v(0, 0, 0), v(1, 0, 0), v(2, 0, 0), v(3, 0, 0)]);
    let d = cr.dp(Fx { raw: SCALE / 2 });
    assert_eq!(d.x.raw, SCALE);
    assert_eq!(d.y.raw, 0);
    assert_eq!(d.z.raw, 0);
}

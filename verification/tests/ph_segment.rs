use coasters::curve::{candidates, select_min_energy, CurveError, HelicalPHQuinticSplineSegment};
use coasters::fx::{Fx, SCALE};
use coasters::linalg::Vec3;

fn v(x: i32, y: i32, z: i32) -> Vec3 {
    Vec3 { x: Fx::from_int(x), y: Fx::from_int(y), z: Fx::from_int(z) }
}

fn fl(x: Fx) -> f64 {
    x.raw as f64 / SCALE as f64
}

fn scenario() -> HelicalPHQuinticSplineSegment {
    HelicalPHQuinticSplineSegment::new(v(0, 0, 0), v(1, 1, 1), v(1, 0, 1), v(0, 1, 1)).unwrap()
}

#[test]
fn end_to_end_construction_succeeds() {
    let seg = scenario();
    assert_eq!(seg.pi.x.raw, 0);
    assert_eq!(seg.pf.x.raw, SCALE);
}

#[test]
fn position_at_zero_is_start_exactly() {
    let seg = scenario();
    let p = seg.curve().p(Fx { raw: 0 });
    assert_eq!(p.x.raw, 0);
    assert_eq!(p.y.raw, 0);
    assert_eq!(p.z.raw, 0);
}

#[test]
fn position_at_one_reaches_end_within_tolerance() {
    let seg = scenario();
    let p = seg.curve().p(Fx { raw: SCALE });
    assert!((fl(p.x) - 1.0).abs() < 1e-4, "x = {}", fl(p.x));
    assert!((fl(p.y) - 1.0).abs() < 1e-4, "y = {}", fl(p.y));
    assert!((fl(p.z) - 1.0).abs() < 1e-4, "z = {}", fl(p.z));
}

#[test]
fn velocity_at_ends_is_parallel_to_tangents() {
    let seg = scenario();
    let c = seg.curve();
    let d0 = c.dp(Fx { raw: 0 });
    let d1 = c.dp(Fx { raw: SCALE });
    let di = v(1, 0, 1);
    let df = v(0, 1, 1);
    let cross0 = d0.cross(di);
    let cross1 = d1.cross(df);
    for x in [cross0.x, cross0.y, cross0.z, cross1.x, cross1.y, cross1.z] {
        assert!(fl(x).abs() < 1e-3, "cross component {}", fl(x));
    }
    assert!(fl(d0.dot(di)) > 0.0);
    assert!(fl(d1.dot(df)) > 0.0);
}

#[test]
fn speed_is_positive_over_unit_interval() {
    let seg = scenario();
    let c = seg.curve();
    for i in 0..=100 {
        let u = Fx::from_int(i).div(Fx::from_int(100));
        assert!(c.speed(u).raw > 0, "speed at {} not positive", i);
    }
}

#[test]
fn speed_equals_derivative_length() {
    // The defining Pythagorean-hodograph property: the speed polynomial
    // is the magnitude of the hodograph.
    let seg = scenario();
    let c = seg.curve();
    for i in 0..=20 {
        let u = Fx::from_int(i).div(Fx::from_int(20));
        let speed = fl(c.speed(u));
        let len = fl(c.dp(u).length());
        assert!((speed - len).abs() < 1e-4, "speed {} vs |dp| {} at {}", speed, len, i);
    }
}

#[test]
fn selected_candidate_has_minimal_energy() {
    let (pi, pf, di, df) = (v(0, 0, 0), v(1, 1, 1), v(1, 0, 1), v(0, 1, 1));
    let cands = candidates(pi, pf, di, df);
    assert!(cands.len() > 0);
    let k = select_min_energy(&cands);
    let best = cands[k].curve().elastic_bending_energy();
    for c in cands.iter() {
        assert!(best.raw <= c.curve().elastic_bending_energy().raw);
    }
    let chosen = HelicalPHQuinticSplineSegment::new(pi, pf, di, df).unwrap();
    assert_eq!(chosen.curve().elastic_bending_energy().raw, best.raw);
}

#[test]
fn zero_tangent_is_degenerate_boundary() {
    let r = HelicalPHQuinticSplineSegment::new(v(0, 0, 0), v(1, 1, 1), v(0, 0, 0), v(0, 1, 1));
    assert_eq!(r.unwrap_err(), CurveError::DegenerateBoundary);
    let r2 = HelicalPHQuinticSplineSegment::new(v(0, 0, 0), v(1, 1, 1), v(1, 0, 1), v(0, 0, 0));
    assert_eq!(r2.unwrap_err(), CurveError::DegenerateBoundary);
}

#[test]
fn coincident_endpoints_with_equal_tangents_have_no_valid_curve() {
    let r = HelicalPHQuinticSplineSegment::new(v(0, 0, 0), v(0, 0, 0), v(1, 0, 0), v(1, 0, 0));
    assert_eq!(r.unwrap_err(), CurveError::NoValidCurve);
}

#[test]
fn tangent_is_velocity_over_speed() {
    let seg = scenario();
    let c = seg.curve();
    let u = Fx { raw: SCALE / 2 };
    let t = c.tangent(u);
    let d = c.dp(u);
    let s = c.speed(u);
    assert_eq!(t.x.raw, d.x.div(s).raw);
    assert_eq!(t.y.raw, d.y.div(s).raw);
    assert_eq!(t.z.raw, d.z.div(s).raw);
}

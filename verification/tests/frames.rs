use coasters::curve::{Frame, HelicalPHQuinticSplineSegment};
use coasters::fx::{Fx, SCALE};
use coasters::linalg::Vec3;

fn v(x: i32, y: i32, z: i32) -> Vec3 {
    Vec3 { x: Fx::from_int(x), y: Fx::from_int(y), z: Fx::from_int(z) }
}

fn fl(x: Fx) -> f64 {
    x.raw as f64 / SCALE as f64
}

#[test]
fn euler_rodrigues_frame_is_orthonormal_along_curve() {
    let seg = HelicalPHQuinticSplineSegment::new(v(0, 0, 0), v(1, 1, 1), v(1, 0, 1), v(0, 1, 1))
        .unwrap();
    let er = seg.euler_rodrigues_frame();
    for i in 0..=10 {
        let u = Fx::from_int(i).div(Fx::from_int(10));
        let f = er.frame(u);
        let axes = [f.x_axis, f.y_axis, f.z_axis];
        for a in axes.iter() {
            let n = fl(a.dot(*a));
            assert!((n - 1.0).abs() < 1e-4, "axis norm {} at sample {}", n, i);
        }
        for (a, b) in [(axes[0], axes[1]), (axes[0], axes[2]), (axes[1], axes[2])] {
            let d = fl(a.dot(b));
            assert!(d.abs() < 1e-4, "axis dot {} at sample {}", d, i);
        }
    }
}

#[test]
fn frame_translation_is_curve_position() {
    let seg = HelicalPHQuinticSplineSegment::new(v(0, 0, 0), v(1, 1, 1), v(1, 0, 1), v(0, 1, 1))
        .unwrap();
    let er = seg.euler_rodrigues_frame();
    let u = Fx { raw: SCALE / 4 };
    let f = er.frame(u);
    let p = seg.curve().p(u);
    assert_eq!(f.translation.x.raw, p.x.raw);
    assert_eq!(f.translation.y.raw, p.y.raw);
    assert_eq!(f.translation.z.raw, p.z.raw);
}

#[test]
fn frame_near_straight_configuration_stays_orthonormal() {
    // Gently curved, almost-straight boundary data, the regression case
    // for naive Frenet frames whose normal flips near zero curvature.
    let seg = HelicalPHQuinticSplineSegment::new(
        v(0, 0, 0),
        v(10, 1, 0),
        v(4, 0, 1),
        v(4, 1, -1),
    )
    .unwrap();
    let er = seg.euler_rodrigues_frame();
    for i in 0..=20 {
        let u = Fx::from_int(i).div(Fx::from_int(20));
        let f = er.frame(u);
        for a in [f.x_axis, f.y_axis, f.z_axis] {
            let n = fl(a.dot(a));
            assert!((n - 1.0).abs() < 1e-3, "axis norm {} at sample {}", n, i);
        }
    }
}

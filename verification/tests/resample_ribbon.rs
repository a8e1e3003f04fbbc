use coasters::curve::{Frame, GenericCurve, HelicalPHQuinticSplineSegment, Resample};
use coasters::fx::{Fx, SCALE};
use coasters::hermite::HermiteQuintic;
use coasters::linalg::Vec3;
use coasters::proc_mesh::{ribbon, Resampler};
use coasters::catmull_rom::CatmullRom3;

fn v(x: i32, y: i32, z: i32) -> Vec3 {
    Vec3 { x: Fx::from_int(x), y: Fx::from_int(y), z: Fx::from_int(z) }
}

fn scenario_curve() -> HermiteQuintic {
    HelicalPHQuinticSplineSegment::new(v(0, 0, 0), v(1, 1, 1), v(1, 0, 1), v(0, 1, 1))
        .unwrap()
        .curve()
}

#[test]
fn resample_is_strictly_increasing_and_bounded() {
    let c = scenario_curve();
    let ds = Fx::from_int(1).div(Fx::from_int(10));
    let us = c.resample(Fx { raw: 0 }, Fx { raw: SCALE }, ds);
    assert!(us.len() > 0);
    assert_eq!(us[0].raw, 0);
    for w in us.windows(2) {
        assert!(w[0].raw < w[1].raw);
    }
    assert!(us[us.len() - 1].raw < SCALE);
}

#[test]
fn resample_length_scales_inversely_with_step() {
    let c = scenario_curve();
    let coarse = c.resample(
        Fx { raw: 0 },
        Fx { raw: SCALE },
        Fx::from_int(1).div(Fx::from_int(10)),
    );
    let fine = c.resample(
        Fx { raw: 0 },
        Fx { raw: SCALE },
        Fx::from_int(1).div(Fx::from_int(20)),
    );
    assert!(fine.len() > coarse.len());
    // Halving the step roughly doubles the sample count.
    assert!(fine.len() as f64 > 1.5 * coarse.len() as f64);
    assert!((fine.len() as f64) < 2.5 * coarse.len() as f64);
}

#[test]
fn resample_of_empty_interval_is_empty() {
    let c = scenario_curve();
    let ds = Fx::from_int(1).div(Fx::from_int(10));
    let us = c.resample(Fx { raw: SCALE }, Fx { raw: SCALE }, ds);
    assert_eq!(us.len(), 0);
    let us2 = c.resample(Fx { raw: SCALE }, Fx { raw: 0 }, ds);
    assert_eq!(us2.len(), 0);
}

#[test]
fn resampler_cursor_matches_stepping() {
    let pts = vec![v(0, 0, 0), v(1, 0, 0), v(2, 1, 0), v(3, 1, 1), v(4, 2, 1)];
    let cr = CatmullRom3::new(pts);
    let ds = Fx::from_int(1).div(Fx::from_int(10));
    let mut cursor = Resampler::new(&cr, Fx { raw: 0 }, Fx { raw: SCALE }, ds);
    let mut seen: Vec<i64> = Vec::new();
    while let Some(u) = cursor.next() {
        // The cursor advances by exactly ds over the derivative's
        // length, one raw unit at least.
        let du = ds.div(cr.dp(u).length());
        let step = if du.raw < 1 { 1 } else { du.raw };
        assert_eq!(cursor.u.raw, u.raw.saturating_add(step));
        seen.push(u.raw);
        assert!(seen.len() < 100000, "cursor must terminate");
    }
    assert!(seen.len() > 0);
    assert_eq!(seen[0], 0);
    for w in seen.windows(2) {
        assert!(w[0] < w[1]);
    }
    assert!(*seen.last().unwrap() < SCALE);
}

#[test]
fn ribbon_emits_two_vertices_per_sample() {
    let seg = HelicalPHQuinticSplineSegment::new(v(0, 0, 0), v(1, 1, 1), v(1, 0, 1), v(0, 1, 1))
        .unwrap();
    let er = seg.euler_rodrigues_frame();
    let ds = Fx::from_int(1).div(Fx::from_int(10));
    let samples = seg.curve().resample(Fx { raw: 0 }, Fx { raw: SCALE }, ds);
    let r = ribbon(&er, Fx { raw: 0 }, Fx { raw: SCALE }, ds, Fx::from_int(2));
    assert_eq!(r.positions.len(), 2 * samples.len());
    assert_eq!(r.normals.len(), r.positions.len());
    assert_eq!(r.uvs.len(), r.positions.len());
    // Each vertex pair is exactly the frame at that sample, offset by
    // half the width along the frame's third axis.
    let w2 = Fx::from_int(2).div(Fx::from_int(2));
    for (i, u) in samples.iter().enumerate() {
        let f = er.frame(*u);
        let left = f.translation.sub(f.z_axis.scale(w2));
        let right = f.translation.add(f.z_axis.scale(w2));
        for (got, want) in [(r.positions[2 * i], left), (r.positions[2 * i + 1], right)] {
            assert_eq!(got.x.raw, want.x.raw);
            assert_eq!(got.y.raw, want.y.raw);
            assert_eq!(got.z.raw, want.z.raw);
        }
        assert_eq!(r.normals[2 * i].y.raw, f.y_axis.y.raw);
        assert_eq!(r.normals[2 * i + 1].x.raw, f.y_axis.x.raw);
    }
}

#[test]
fn ribbon_uvs_form_checkerboard() {
    let seg = HelicalPHQuinticSplineSegment::new(v(0, 0, 0), v(1, 1, 1), v(1, 0, 1), v(0, 1, 1))
        .unwrap();
    let er = seg.euler_rodrigues_frame();
    let ds = Fx::from_int(1).div(Fx::from_int(5));
    let r = ribbon(&er, Fx { raw: 0 }, Fx { raw: SCALE }, ds, Fx::from_int(2));
    for (i, uv) in r.uvs.iter().enumerate() {
        assert_eq!(uv.0.raw, if i % 2 == 1 { SCALE } else { 0 });
        assert_eq!(uv.1.raw, if (i / 2) % 2 == 1 { SCALE } else { 0 });
    }
}

#[test]
fn ribbon_indices_are_ascending_then_reversed() {
    let seg = HelicalPHQuinticSplineSegment::new(v(0, 0, 0), v(1, 1, 1), v(1, 0, 1), v(0, 1, 1))
        .unwrap();
    let er = seg.euler_rodrigues_frame();
    let ds = Fx::from_int(1).div(Fx::from_int(5));
    let r = ribbon(&er, Fx { raw: 0 }, Fx { raw: SCALE }, ds, Fx::from_int(2));
    let n = r.positions.len();
    assert_eq!(r.indices.len(), 2 * n - 1);
    for i in 0..n {
        assert_eq!(r.indices[i], i);
    }
    for i in n..(2 * n - 1) {
        assert_eq!(r.indices[i], 2 * n - 2 - i);
    }
}

#[test]
fn ribbon_vertices_straddle_the_center_line() {
    let seg = HelicalPHQuinticSplineSegment::new(v(0, 0, 0), v(1, 1, 1), v(1, 0, 1), v(0, 1, 1))
        .unwrap();
    let er = seg.euler_rodrigues_frame();
    let ds = Fx::from_int(1).div(Fx::from_int(5));
    let r = ribbon(&er, Fx { raw: 0 }, Fx { raw: SCALE }, ds, Fx::from_int(2));
    // Each vertex pair averages back to the center-line sample position.
    let p0 = seg.curve().p(Fx { raw: 0 });
    let mid_x = (r.positions[0].x.raw + r.positions[1].x.raw) / 2;
    let mid_y = (r.positions[0].y.raw + r.positions[1].y.raw) / 2;
    let mid_z = (r.positions[0].z.raw + r.positions[1].z.raw) / 2;
    assert!((mid_x - p0.x.raw).abs() <= 1);
    assert!((mid_y - p0.y.raw).abs() <= 1);
    assert!((mid_z - p0.z.raw).abs() <= 1);
}

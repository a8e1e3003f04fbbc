use coasters::fx::{Fx, SCALE};
use coasters::quartic::{find_real_roots, QuarticCoefs};

fn fl(x: Fx) -> f64 {
    x.raw as f64 / SCALE as f64
}

#[test]
fn quartic_with_four_known_roots() {
    // (t^2 - 1)(t^2 - 4) = t^4 - 5 t^2 + 4, roots -2, -1, 1, 2.
    let d = QuarticCoefs {
        d4: Fx::from_int(1),
        d3: Fx::from_int(0),
        d2: Fx::from_int(-5),
        d1: Fx::from_int(0),
        d0: Fx::from_int(4),
    };
    let roots = find_real_roots(&d);
    assert_eq!(roots.len(), 4);
    let expected = [-2.0, -1.0, 1.0, 2.0];
    for (r, e) in roots.iter().zip(expected.iter()) {
        assert!((fl(*r) - e).abs() < 1e-4, "root {} vs {}", fl(*r), e);
    }
    for w in roots.windows(2) {
        assert!(w[0].raw < w[1].raw);
    }
}

#[test]
fn quartic_with_no_real_roots() {
    // t^4 + 1 has no real roots.
    let d = QuarticCoefs {
        d4: Fx::from_int(1),
        d3: Fx::from_int(0),
        d2: Fx::from_int(0),
        d1: Fx::from_int(0),
        d0: Fx::from_int(1),
    };
    let roots = find_real_roots(&d);
    assert_eq!(roots.len(), 0);
}

#[test]
fn linear_factor_root_is_located() {
    // (t - 3) t^3 = t^4 - 3 t^3 crosses at 3 (and touches at 0).
    let d = QuarticCoefs {
        d4: Fx::from_int(1),
        d3: Fx::from_int(-3),
        d2: Fx::from_int(0),
        d1: Fx::from_int(0),
        d0: Fx::from_int(0),
    };
    let roots = find_real_roots(&d);
    assert!(roots.iter().any(|r| (fl(*r) - 3.0).abs() < 1e-4));
}

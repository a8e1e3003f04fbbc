use coasters::fx::{Fx, SCALE};

fn fl(x: Fx) -> f64 {
    x.raw as f64 / SCALE as f64
}

#[test]
fn scale_is_two_to_twenty() {
    assert_eq!(SCALE, 1 << 20);
    assert_eq!(Fx::from_int(1).raw, SCALE);
    assert_eq!(Fx::from_int(-3).raw, -3 * SCALE);
}

#[test]
fn add_sub_neg_exact() {
    let a = Fx::from_int(5);
    let b = Fx::from_int(3);
    assert_eq!(a.add(b).raw, 8 * SCALE);
    assert_eq!(a.sub(b).raw, 2 * SCALE);
    assert_eq!(b.sub(a).raw, -2 * SCALE);
    assert_eq!(a.neg().raw, -5 * SCALE);
}

#[test]
fn mul_exact_on_integers() {
    let a = Fx::from_int(7);
    let b = Fx::from_int(-6);
    assert_eq!(a.mul(b).raw, -42 * SCALE);
    let half = Fx { raw: SCALE / 2 };
    assert_eq!(a.mul(half).raw, 7 * SCALE / 2);
}

#[test]
fn mul_truncates_toward_zero() {
    // (1/2^20) * (1/2^20) underflows to zero, from both signs.
    let eps = Fx { raw: 1 };
    assert_eq!(eps.mul(eps).raw, 0);
    let neg_eps = Fx { raw: -1 };
    assert_eq!(neg_eps.mul(eps).raw, 0);
}

#[test]
fn div_exact_and_truncating() {
    let a = Fx::from_int(7);
    let b = Fx::from_int(2);
    assert_eq!(a.div(b).raw, 7 * SCALE / 2);
    // 1/3 truncates at the resolution.
    let third = Fx::from_int(1).div(Fx::from_int(3));
    assert_eq!(third.raw, SCALE as i64 / 3);
}

#[test]
fn div_truncates_toward_zero_on_negatives() {
    // -7/3 truncates toward zero, not toward minus infinity.
    let q = Fx::from_int(-7).div(Fx::from_int(3));
    assert_eq!(q.raw, -(7 * SCALE / 3));
    let q2 = Fx::from_int(7).div(Fx::from_int(-3));
    assert_eq!(q2.raw, -(7 * SCALE / 3));
}

#[test]
fn div_by_zero_saturates_by_sign() {
    let z = Fx { raw: 0 };
    assert_eq!(Fx::from_int(2).div(z).raw, i64::MAX);
    assert_eq!(Fx::from_int(-2).div(z).raw, i64::MIN);
    assert_eq!(z.div(z).raw, 0);
}

#[test]
fn arithmetic_saturates_instead_of_overflowing() {
    let big = Fx { raw: i64::MAX };
    assert_eq!(big.add(big).raw, i64::MAX);
    assert_eq!(big.neg().add(big.neg()).raw, i64::MIN);
    assert_eq!(big.mul(big).raw, i64::MAX);
}

#[test]
fn sqrt_exact_on_squares() {
    assert_eq!(Fx::from_int(4).sqrt().raw, 2 * SCALE);
    assert_eq!(Fx::from_int(9).sqrt().raw, 3 * SCALE);
    assert_eq!(Fx::from_int(0).sqrt().raw, 0);
    assert_eq!(Fx::from_int(-4).sqrt().raw, 0);
}

#[test]
fn sqrt_close_on_non_squares() {
    let r = fl(Fx::from_int(2).sqrt());
    assert!((r - 2.0_f64.sqrt()).abs() < 1e-5, "sqrt(2) = {}", r);
}

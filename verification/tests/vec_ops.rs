// The vector algebra, checked against hardware IEEE-754 arithmetic: the
// library computes on bit patterns through a soft-float implementation,
// so every result here must agree with what the processor computes.

use kepler::vec::Vec3;

fn v(x: f64, y: f64, z: f64) -> Vec3 {
    Vec3 { x: x.to_bits(), y: y.to_bits(), z: z.to_bits() }
}

fn fx(a: Vec3) -> f64 {
    f64::from_bits(a.x)
}

fn fy(a: Vec3) -> f64 {
    f64::from_bits(a.y)
}

fn fz(a: Vec3) -> f64 {
    f64::from_bits(a.z)
}

#[test]
fn add_matches_hardware() {
    let a = v(1.5, -2.25, 3.75);
    let b = v(0.1, 0.2, -0.3);
    let r = a.add(b);
    assert_eq!(fx(r).to_bits(), (1.5f64 + 0.1).to_bits());
    assert_eq!(fy(r).to_bits(), (-2.25f64 + 0.2).to_bits());
    assert_eq!(fz(r).to_bits(), (3.75f64 + -0.3).to_bits());
}

#[test]
fn add_scalar_matches_hardware() {
    let a = v(1.5, -2.25, 3.75);
    let r = a.add_scalar(0.7f64.to_bits());
    assert_eq!(fx(r).to_bits(), (1.5f64 + 0.7).to_bits());
    assert_eq!(fy(r).to_bits(), (-2.25f64 + 0.7).to_bits());
    assert_eq!(fz(r).to_bits(), (3.75f64 + 0.7).to_bits());
}

#[test]
fn add_assign_matches_pure_form() {
    let mut a = v(1.5, -2.25, 3.75);
    let b = v(0.1, 0.2, -0.3);
    let pure = a.add(b);
    a.add_assign(b);
    assert_eq!(a, pure);
    let mut c = v(1.5, -2.25, 3.75);
    let pure_s = c.add_scalar(0.7f64.to_bits());
    c.add_assign_scalar(0.7f64.to_bits());
    assert_eq!(c, pure_s);
}

#[test]
fn sub_matches_hardware() {
    let a = v(10.0, 0.1, -7.5);
    let b = v(2.5, 0.3, 1.25);
    let r = a.sub(b);
    assert_eq!(fx(r).to_bits(), (10.0f64 - 2.5).to_bits());
    assert_eq!(fy(r).to_bits(), (0.1f64 - 0.3).to_bits());
    assert_eq!(fz(r).to_bits(), (-7.5f64 - 1.25).to_bits());
    let rs = a.sub_scalar(0.7f64.to_bits());
    assert_eq!(fx(rs).to_bits(), (10.0f64 - 0.7).to_bits());
}

#[test]
fn sub_assign_matches_pure_form() {
    let mut a = v(10.0, 0.1, -7.5);
    let b = v(2.5, 0.3, 1.25);
    let pure = a.sub(b);
    a.sub_assign(b);
    assert_eq!(a, pure);
    let mut c = v(10.0, 0.1, -7.5);
    let pure_s = c.sub_scalar(0.7f64.to_bits());
    c.sub_assign_scalar(0.7f64.to_bits());
    assert_eq!(c, pure_s);
}

#[test]
fn mul_matches_hardware() {
    let a = v(1.1, -2.2, 3.3);
    let b = v(4.4, 5.5, -6.6);
    let r = a.mul(b);
    assert_eq!(fx(r).to_bits(), (1.1f64 * 4.4).to_bits());
    assert_eq!(fy(r).to_bits(), (-2.2f64 * 5.5).to_bits());
    assert_eq!(fz(r).to_bits(), (3.3f64 * -6.6).to_bits());
    let rs = a.mul_scalar(3.0f64.to_bits());
    assert_eq!(fy(rs).to_bits(), (-2.2f64 * 3.0).to_bits());
}

#[test]
fn mul_assign_matches_pure_form() {
    let mut a = v(1.1, -2.2, 3.3);
    let b = v(4.4, 5.5, -6.6);
    let pure = a.mul(b);
    a.mul_assign(b);
    assert_eq!(a, pure);
    let mut c = v(1.1, -2.2, 3.3);
    let pure_s = c.mul_scalar(3.0f64.to_bits());
    c.mul_assign_scalar(3.0f64.to_bits());
    assert_eq!(c, pure_s);
}

#[test]
fn div_matches_hardware() {
    let a = v(1.0, -2.0, 7.0);
    let b = v(3.0, 0.7, -0.11);
    let r = a.div(b);
    assert_eq!(fx(r).to_bits(), (1.0f64 / 3.0).to_bits());
    assert_eq!(fy(r).to_bits(), (-2.0f64 / 0.7).to_bits());
    assert_eq!(fz(r).to_bits(), (7.0f64 / -0.11).to_bits());
    let rs = a.div_scalar(0.9f64.to_bits());
    assert_eq!(fz(rs).to_bits(), (7.0f64 / 0.9).to_bits());
}

#[test]
fn div_assign_matches_pure_form() {
    let mut a = v(1.0, -2.0, 7.0);
    let b = v(3.0, 0.7, -0.11);
    let pure = a.div(b);
    a.div_assign(b);
    assert_eq!(a, pure);
    let mut c = v(1.0, -2.0, 7.0);
    let pure_s = c.div_scalar(0.9f64.to_bits());
    c.div_assign_scalar(0.9f64.to_bits());
    assert_eq!(c, pure_s);
}

#[test]
fn div_by_zero_follows_ieee() {
    let a = v(1.0, -1.0, 0.0);
    let r = a.div_scalar(0.0f64.to_bits());
    assert_eq!(fx(r), f64::INFINITY);
    assert_eq!(fy(r), f64::NEG_INFINITY);
    assert!(fz(r).is_nan());
}

#[test]
fn zero_yields_origin_regardless_of_prior_state() {
    let mut a = v(12.5, -0.003, 9.9e99);
    let r = a.zero();
    assert_eq!(fx(a), 0.0);
    assert_eq!(fy(a), 0.0);
    assert_eq!(fz(a), 0.0);
    assert_eq!(r, a);
    let r2 = a.zero();
    assert_eq!(r2, r);
}

#[test]
fn set_overwrites_components() {
    let mut a = v(1.0, 2.0, 3.0);
    a.set(4.5f64.to_bits(), (-5.5f64).to_bits(), 6.5f64.to_bits());
    assert_eq!(fx(a), 4.5);
    assert_eq!(fy(a), -5.5);
    assert_eq!(fz(a), 6.5);
}

#[test]
fn mag_sq_matches_hardware() {
    let a = v(1.0, 2.0, 3.0);
    let b = v(-0.5, 0.25, 10.0);
    let d = a.mag_sq(b);
    let dx = 1.0f64 - -0.5;
    let dy = 2.0f64 - 0.25;
    let dz = 3.0f64 - 10.0;
    let expect = dx * dx + dy * dy + dz * dz;
    assert_eq!(f64::from_bits(d).to_bits(), expect.to_bits());
}

#[test]
fn mag_sq_of_self_is_zero() {
    let p = v(3.25, -17.0, 0.000244140625);
    assert_eq!(f64::from_bits(p.mag_sq(p)), 0.0);
    let q = v(1.0e300, -2.0e-300, 0.0);
    assert_eq!(f64::from_bits(q.mag_sq(q)), 0.0);
}

#[test]
fn add_then_sub_round_trip_within_tolerance() {
    let a = v(1.2345678901234, -9.87654321e4, 3.0e-7);
    let b = v(0.5e-3, 123.456, -7.0e-8);
    let r = a.add(b).sub(b);
    assert!((fx(r) - 1.2345678901234f64).abs() <= 1e-12 * 1.2345678901234f64.abs());
    assert!((fy(r) - -9.87654321e4f64).abs() <= 1e-9);
    assert!((fz(r) - 3.0e-7f64).abs() <= 1e-12);
}

#[test]
fn mul_then_div_round_trip_within_tolerance() {
    let a = v(1.5, -2.25e10, 3.0e-17);
    let s = 0.37f64.to_bits();
    let r = a.mul_scalar(s).div_scalar(s);
    assert!((fx(r) - 1.5).abs() <= 1e-15);
    assert!((fy(r) - -2.25e10).abs() <= 1.0e-5);
    assert!((fz(r) - 3.0e-17).abs() <= 1e-30);
}

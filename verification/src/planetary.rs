//! The Keplerian-to-Cartesian transform.
//!
//! A `Planet` record carries orbital elements in, and position and
//! velocity vectors out. The transform derives the true anomaly, the
//! orbital radius and the specific angular momentum, then rotates the
//! perifocal state into the reference frame.
//!
//! Sine, cosine, tangent and arctangent are not computed here: their
//! results vary with the platform and the libm build, so nothing exact
//! could be promised of them. Instead `kepler_angles` tells the caller
//! which angles and terms to sample them at, the caller hands the samples
//! back in a `TrigSamples`, and every step from there on is pinned down
//! bit for bit. No input is validated: out-of-domain elements (e = 1 and
//! beyond) propagate through as IEEE-754 infinities and NaNs rather than
//! raising an error.

use vstd::prelude::*;
use crate::consts::G;
use crate::fp::{add_bits, sub_bits, mul_bits, div_bits, sqrt_bits, neg_bits};
use crate::fp::{add64, sub64, mul64, div64, sqrt64, neg64};
use crate::vec::Vec3;

verus! {

/// Bit pattern of 1.0.
pub const ONE_BITS: u64 = 0x3FF0000000000000;

/// Bit pattern of 2.0.
pub const TWO_BITS: u64 = 0x4000000000000000;

/// Bit pattern of pi, 3.141592653589793.
pub const PI_BITS: u64 = 0x400921FB54442D18;

/// Bit pattern of 180.0.
pub const DEG180_BITS: u64 = 0x4066800000000000;

/// A celestial body: identity, physical scalars, orbital elements, and
/// the state vectors the transform fills in. The angles `i`, `w`, `Om`
/// and `E` are in degrees; every scalar is a binary64 bit pattern.
#[allow(non_snake_case)]
#[derive(Debug)]
pub struct Planet {
    /// Identifying label, immutable after creation.
    pub name: String,
    /// Mass, kg.
    pub mass: u64,
    /// Radius, m; may be zero for a point mass.
    pub radius: u64,
    /// Semi-major axis, m.
    pub a: u64,
    /// Eccentricity, dimensionless.
    pub e: u64,
    /// Inclination, degrees.
    pub i: u64,
    /// Argument of periapsis, degrees.
    pub w: u64,
    /// Longitude of the ascending node, degrees.
    pub Om: u64,
    /// Eccentric anomaly, degrees, caller-supplied.
    pub E: u64,
    /// Acceleration; starts zero and is never written by the transform.
    pub acc: Vec3,
    /// Velocity; starts zero, overwritten by the transform.
    pub vel: Vec3,
    /// Position; starts zero, overwritten by the transform.
    pub pos: Vec3,
}

/// Builds a record from its elements, with the three state vectors at
/// the zero vector.
#[allow(non_snake_case)]
pub fn gen_planet(
    name_: &str,
    mass: u64,
    radius: u64,
    a: u64,
    e: u64,
    i: u64,
    w: u64,
    Om: u64,
    E: u64,
) -> (p: Planet)
    ensures
        p.name@ == name_@,
        p.mass == mass && p.radius == radius,
        p.a == a && p.e == e && p.i == i && p.w == w && p.Om == Om && p.E == E,
        p.acc.x == 0 && p.acc.y == 0 && p.acc.z == 0,
        p.vel.x == 0 && p.vel.y == 0 && p.vel.z == 0,
        p.pos.x == 0 && p.pos.y == 0 && p.pos.z == 0,
{
    Planet {
        name: name_.to_owned(),
        mass,
        radius,
        a,
        e,
        i,
        w,
        Om,
        E,
        acc: Vec3 { x: 0, y: 0, z: 0 },
        vel: Vec3 { x: 0, y: 0, z: 0 },
        pos: Vec3 { x: 0, y: 0, z: 0 },
    }
}

/// Degrees to radians: d * pi / 180.
pub open spec fn rad_bits(d: u64) -> u64 {
    div_bits(mul_bits(d, PI_BITS), DEG180_BITS)
}

/// True anomaly from the sampled arctangent and tangent terms:
/// v = 2 * atan(sqrt(e / (1 - e))) * tan(E / 2), with the two
/// transcendental evaluations given.
pub open spec fn true_anomaly_bits(atan_term: u64, tan_term: u64) -> u64 {
    mul_bits(mul_bits(TWO_BITS, atan_term), tan_term)
}

/// Orbital radius: r = a * (1 - e * cos E), with E's cosine given.
pub open spec fn radius_bits(a: u64, e: u64, cos_e: u64) -> u64 {
    mul_bits(a, sub_bits(ONE_BITS, mul_bits(e, cos_e)))
}

/// Standard gravitational parameter: mu = G * m.
pub open spec fn mu_bits(m: u64) -> u64 {
    mul_bits(G, m)
}

/// Specific angular momentum: h = sqrt(mu * a * (1 - e * e)).
pub open spec fn momentum_bits(mu: u64, a: u64, e: u64) -> u64 {
    sqrt_bits(mul_bits(mul_bits(mu, a), sub_bits(ONE_BITS, mul_bits(e, e))))
}

/// The angles and terms at which the caller samples the trigonometric
/// functions for one record.
pub struct KeplerAngles {
    /// Inclination in radians; sample its sine and cosine.
    pub i_rad: u64,
    /// Argument of periapsis in radians; sample its sine and cosine.
    pub w_rad: u64,
    /// Ascending-node longitude in radians; sample its sine and cosine.
    pub om_rad: u64,
    /// sqrt(e / (1 - e)); sample its arctangent.
    pub atan_arg: u64,
    /// E / 2, in the degrees E was supplied in; sample its tangent.
    pub half_e: u64,
}

/// The trigonometric evaluations the transform consumes. `cos_e` is the
/// cosine of the eccentric anomaly exactly as supplied (degrees); the
/// others are sines and cosines of the radian angles of `KeplerAngles`,
/// and of the argument of latitude w + v from `argument_of_latitude`.
#[derive(Copy, Clone, Debug)]
pub struct TrigSamples {
    /// Cosine of E, E taken as supplied.
    pub cos_e: u64,
    /// Sine of the inclination, radians.
    pub sin_i: u64,
    /// Cosine of the inclination, radians.
    pub cos_i: u64,
    /// Sine of the argument of periapsis, radians.
    pub sin_w: u64,
    /// Cosine of the argument of periapsis, radians.
    pub cos_w: u64,
    /// Sine of the ascending-node longitude, radians.
    pub sin_om: u64,
    /// Cosine of the ascending-node longitude, radians.
    pub cos_om: u64,
    /// Sine of w + v.
    pub sin_wv: u64,
    /// Cosine of w + v.
    pub cos_wv: u64,
}

/// The position the transform writes: the perifocal radius rotated into
/// the reference frame.
pub open spec fn position_bits(m: u64, a: u64, e: u64, t: TrigSamples) -> Vec3 {
    let r = radius_bits(a, e, t.cos_e);
    Vec3 {
        x: mul_bits(
            r,
            sub_bits(
                mul_bits(t.cos_om, t.cos_wv),
                mul_bits(mul_bits(t.sin_om, t.sin_wv), t.cos_i),
            ),
        ),
        y: mul_bits(
            r,
            add_bits(
                mul_bits(t.sin_om, t.cos_wv),
                mul_bits(mul_bits(t.cos_om, t.sin_wv), t.cos_i),
            ),
        ),
        z: mul_bits(r, mul_bits(t.sin_i, t.sin_wv)),
    }
}

/// The velocity the transform writes: the vis-viva closed form, scaled
/// by mu / h.
pub open spec fn velocity_bits(m: u64, a: u64, e: u64, t: TrigSamples) -> Vec3 {
    let mu = mu_bits(m);
    let h = momentum_bits(mu, a, e);
    let mh = div_bits(mu, h);
    let sin_sum = add_bits(t.sin_wv, mul_bits(e, t.sin_w));
    let cos_sum = add_bits(t.cos_wv, mul_bits(e, t.cos_w));
    Vec3 {
        x: mul_bits(
            neg_bits(mh),
            add_bits(mul_bits(t.cos_om, sin_sum), mul_bits(mul_bits(t.sin_om, cos_sum), t.cos_i)),
        ),
        y: mul_bits(
            neg_bits(mh),
            sub_bits(mul_bits(t.sin_om, sin_sum), mul_bits(mul_bits(t.cos_om, cos_sum), t.cos_i)),
        ),
        z: mul_bits(mh, mul_bits(cos_sum, t.sin_i)),
    }
}

/// Degrees to radians.
fn d2r(d: u64) -> (r: u64)
    ensures
        r == rad_bits(d),
{
    div64(mul64(d, PI_BITS), DEG180_BITS)
}

/// The angles and terms to sample the trigonometric functions at, for
/// one record: the three frame angles converted to radians, the
/// arctangent argument sqrt(e / (1 - e)), and the half eccentric
/// anomaly E / 2 left in degrees, both exactly as the transform
/// consumes them.
pub fn kepler_angles(p: &Planet) -> (k: KeplerAngles)
    ensures
        k.i_rad == rad_bits(p.i),
        k.w_rad == rad_bits(p.w),
        k.om_rad == rad_bits(p.Om),
        k.atan_arg == sqrt_bits(div_bits(p.e, sub_bits(ONE_BITS, p.e))),
        k.half_e == div_bits(p.E, TWO_BITS),
{
    KeplerAngles {
        i_rad: d2r(p.i),
        w_rad: d2r(p.w),
        om_rad: d2r(p.Om),
        atan_arg: sqrt64(div64(p.e, sub64(ONE_BITS, p.e))),
        half_e: div64(p.E, TWO_BITS),
    }
}

/// True anomaly from the two sampled transcendental terms:
/// v = 2 * atan_term * tan_term.
pub fn true_anomaly(atan_term: u64, tan_term: u64) -> (v: u64)
    ensures
        v == true_anomaly_bits(atan_term, tan_term),
{
    mul64(mul64(TWO_BITS, atan_term), tan_term)
}

/// The argument of latitude w + v: the argument of periapsis in radians
/// plus the true anomaly built from the sampled terms. Sample sine and
/// cosine of this sum for `TrigSamples`.
pub fn argument_of_latitude(w_rad: u64, atan_term: u64, tan_term: u64) -> (wv: u64)
    ensures
        wv == add_bits(w_rad, true_anomaly_bits(atan_term, tan_term)),
{
    add64(w_rad, true_anomaly(atan_term, tan_term))
}

/// Orbital radius r = a * (1 - e * cos E).
pub fn orbital_radius(a: u64, e: u64, cos_e: u64) -> (r: u64)
    ensures
        r == radius_bits(a, e, cos_e),
{
    mul64(a, sub64(ONE_BITS, mul64(e, cos_e)))
}

/// Standard gravitational parameter mu = G * m of a central body of
/// mass m.
pub fn gravitational_parameter(m: u64) -> (mu: u64)
    ensures
        mu == mu_bits(m),
{
    mul64(G, m)
}

/// Specific angular momentum h = sqrt(mu * a * (1 - e * e)).
pub fn specific_angular_momentum(mu: u64, a: u64, e: u64) -> (h: u64)
    ensures
        h == momentum_bits(mu, a, e),
{
    sqrt64(mul64(mul64(mu, a), sub64(ONE_BITS, mul64(e, e))))
}

/// Writes the Cartesian state for a central mass `M` into `p.pos` and
/// `p.vel`, consuming the caller's trigonometric samples; every other
/// field, acceleration included, is left as it was. Degenerate elements
/// surface as non-finite components, never as an error.
#[allow(non_snake_case)]
pub fn kep2cart(M: u64, p: &mut Planet, t: TrigSamples)
    ensures
        final(p).name == old(p).name,
        final(p).mass == old(p).mass && final(p).radius == old(p).radius,
        final(p).a == old(p).a && final(p).e == old(p).e && final(p).i == old(p).i,
        final(p).w == old(p).w && final(p).Om == old(p).Om && final(p).E == old(p).E,
        final(p).acc == old(p).acc,
        final(p).pos == position_bits(M, old(p).a, old(p).e, t),
        final(p).vel == velocity_bits(M, old(p).a, old(p).e, t),
{
    let r = orbital_radius(p.a, p.e, t.cos_e);
    let mu = gravitational_parameter(M);
    let h = specific_angular_momentum(mu, p.a, p.e);
    let mh = div64(mu, h);
    let neg_mh = neg64(mh);
    let sin_sum = add64(t.sin_wv, mul64(p.e, t.sin_w));
    let cos_sum = add64(t.cos_wv, mul64(p.e, t.cos_w));
    let px = mul64(r, sub64(mul64(t.cos_om, t.cos_wv), mul64(mul64(t.sin_om, t.sin_wv), t.cos_i)));
    let py = mul64(r, add64(mul64(t.sin_om, t.cos_wv), mul64(mul64(t.cos_om, t.sin_wv), t.cos_i)));
    let pz = mul64(r, mul64(t.sin_i, t.sin_wv));
    let vx = mul64(neg_mh, add64(mul64(t.cos_om, sin_sum), mul64(mul64(t.sin_om, cos_sum), t.cos_i)));
    let vy = mul64(neg_mh, sub64(mul64(t.sin_om, sin_sum), mul64(mul64(t.cos_om, cos_sum), t.cos_i)));
    let vz = mul64(mh, mul64(cos_sum, t.sin_i));
    p.pos.set(px, py, pz);
    p.vel.set(vx, vy, vz);
}

} // verus!

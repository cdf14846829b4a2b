//! Physical constants, each as the `u64` bit pattern of its IEEE-754
//! binary64 value. Only the gravitational constant enters the transform;
//! the rest complete the fixed table for callers.

use vstd::prelude::*;

verus! {

/// Speed of light, 299792458.0 m/s.
pub const C: u64 = 0x41B1DE784A000000;

/// Gravitational constant, 6.67428e-11 m^3/(kg s^2).
pub const G: u64 = 0x3DD2589B659737D1;

/// Standard gravitational parameter of the Sun, 1.32712440041e20 m^3/s^2.
pub const GM: u64 = 0x441CC705344E7C87;

/// Astronomical unit, 149597870700.0 m.
pub const AU: u64 = 0x42416A5D2D360000;

/// One day, 86400.0 s.
pub const DAY_SEC: u64 = 0x40F5180000000000;

/// Days in one tropical year, 365.2421875.
pub const YEAR_DAY: u64 = 0x4076D3E000000000;

/// Seconds in one tropical year, 365.2421875 * 86400.0 = 31556925.0.
pub const YEAR_SEC: u64 = 0x417E1853D0000000;

/// Stefan-Boltzmann constant, 5.670374419e-8 W/(m^2 K^4).
pub const STEFAN_BOLTZMANN: u64 = 0x3E6E714DA268C0CC;

/// Zero-point luminosity, 3.0128e28 W.
pub const ZERO_POINT_LUMINOSITY: u64 = 0x45D856530A28755F;

} // verus!

//! Conversion of Keplerian orbital elements into Cartesian state vectors
//! under two-body Newtonian gravity.
//!
//! Every scalar is an IEEE-754 binary64 value carried as its `u64` bit
//! pattern, so that each computation is pinned down bit for bit in the
//! contracts. The trigonometric evaluations the transform consumes are
//! taken as inputs: the caller samples sine, cosine, tangent and
//! arctangent at the angles this library derives, and the library does
//! everything else.

pub mod consts;
pub mod fp;
pub mod planetary;
pub mod vec;

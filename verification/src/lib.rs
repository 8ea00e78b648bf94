//! Three-dimensional projective geometric algebra over fixed-point scalars.
//!
//! Points, lines, planes and motors are small value types whose coordinates
//! are [`scalar::Scalar`]s: signed 32-bit numbers with twenty fractional
//! bits. An operation evaluates its polynomial on the raw values without
//! rounding in between, and rounds once, to the nearest raw value, when it
//! stores the result; what is out of range is clamped. The polynomials
//! themselves live in [`exact`], and [`laws`] proves what holds of them:
//! that the motor product composes motions and is associative, that the
//! inverse undoes a motion, that factoring undoes building, that a motor
//! keeps distances.

pub mod angle;
pub mod exact;
pub mod laws;
pub mod line;
pub mod motor;
pub mod plane;
pub mod point;
pub mod scalar;
pub mod transform;

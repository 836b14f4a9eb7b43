//! Heliocentric positions of the eight major planets from a low-precision
//! analytic theory of their orbits.
//!
//! This crate holds the exact part of the computation: the day count, the
//! osculating elements of each planet as linear functions of the day count,
//! the arguments of the periodic corrections that the giant planets need, and
//! the rule that bounds the iteration of Kepler's equation. Every quantity is
//! an exact rational number, so that the elements of an orbit are stated, and
//! proved, without rounding. Trigonometry is left to the caller.

pub mod elements;
pub mod error;
pub mod orbit;
pub mod perturbation;
pub mod planet;
pub mod quantity;
pub mod solver;
pub mod time;

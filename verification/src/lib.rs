//! A point mass tethered to a moving anchor by a spring, stepped once per frame.
//!
//! All quantities are fixed-point numbers held in `i64`: a raw value `r` stands
//! for the number `r / UNIT`. Products and quotients round toward zero, but a
//! result that is not zero keeps at least one raw step, so damping never stops
//! a moving object and no force is lost to rounding. Arithmetic saturates at
//! the ends of the `i64` range, so every operation is total and deterministic.

pub mod fixed;
pub mod object;
pub mod settings;
pub mod simulation;
pub mod spring;
pub mod vector;

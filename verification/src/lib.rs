//! Lumped-parameter thermodynamic simulator of a small closed fluid loop.
//!
//! A heated panel, a storage tank, and two connecting pipes exchange heat
//! with a circulating water mass over discrete time steps.  Every physical
//! quantity is carried as an unsigned integer in *nano* units: one unit is
//! 10^-9 of the corresponding SI unit (kelvin, kilogram, second, watt,
//! joule, metre, and their derived combinations).  Working on a fixed
//! integer scale keeps every step of the arithmetic exact and lets each
//! operation carry a precise contract; the caller converts to and from
//! whatever external representation it uses.

pub mod entities;
pub mod sim;
pub mod units;
pub mod water;

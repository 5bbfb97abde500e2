//! The fixed integer scale of the simulator and the exact arithmetic on it.
//!
//! One stored unit is 10^-9 of the SI unit (`SCALE` stored units make one
//! kelvin, kilogram, second, watt, joule or metre).  Products and quotients
//! of scaled quantities are computed through 128-bit intermediates, and each
//! helper states its result exactly as an integer expression, so callers can
//! reason about the arithmetic without reading the bodies.

use vstd::prelude::*;

verus! {

/// Stored units per SI unit: quantities are fixed-point with nine
/// fractional decimal digits.
pub const SCALE: u64 = 1_000_000_000;

/// `SCALE * SCALE`, the factor between a product of two scaled quantities
/// and the scaled representation of their physical product.
pub const SCALE_SQ: u64 = 1_000_000_000 * 1_000_000_000;

// ------------------------------------------------------------------
// Physical constants of the working fluid and of geometry, scaled.
// They sit in one table so the correlation arithmetic can be read, and
// checked, against a single source.
// ------------------------------------------------------------------

/// Specific heat of water, 4181.3 J/(kg K), scaled.
pub const WATER_SPECIFIC_HEAT: u64 = 4_181_300_000_000;

/// Two pi, scaled; enters the lateral surface of a cylinder.
pub const TWO_PI: u64 = 6_283_185_307;

/// Lowest water temperature, scaled kelvin, at which the viscosity
/// correlation used by the tank model is defined: at or below 149.3 K its
/// exponent blows up, so stepping must refuse such a state.
pub const VISCOSITY_MIN_TEMP: u64 = 149_300_000_000;

// ------------------------------------------------------------------
// Range caps.  Every well-formed quantity stays under its cap, and the
// caps are chosen so that each 128-bit intermediate product in the crate
// provably fits.  In SI terms the caps are generous: 10^4 K, 10^9 kg,
// 10^3 m, 10^6 m^2, 10^9 W, 10^5 W/K, one-second time steps.
// ------------------------------------------------------------------

/// Largest well-formed temperature (10^4 K).
pub const TEMP_MAX: u64 = 10_000_000_000_000;

/// Largest well-formed mass (10^9 kg).
pub const MASS_CAP: u64 = 1_000_000_000_000_000_000;

/// Largest admissible time step (1 s); accuracy wants far smaller ones.
pub const DT_MAX: u64 = 1_000_000_000;

/// Largest well-formed length (10^3 m).
pub const GEOM_CAP: u64 = 1_000_000_000_000;

/// Largest well-formed area (10^6 m^2).
pub const AREA_CAP: u64 = 1_000_000_000_000_000;

/// Largest well-formed specific heat (10^7 J/(kg K)).
pub const SPEC_HEAT_CAP: u64 = 10_000_000_000_000_000;

/// Largest well-formed thermal conductivity (10^7 W/(m K)).
pub const COND_CAP: u64 = 10_000_000_000_000_000;

/// Largest well-formed convective coefficient (10^4 W/(m^2 K)).
pub const CONV_CAP: u64 = 10_000_000_000_000;

/// Largest well-formed heat-rate coefficient, rate per kelvin of
/// temperature difference (10^5 W/K).
pub const COEFF_CAP: u64 = 100_000_000_000_000;

/// Largest well-formed external heat input (10^9 W).
pub const POWER_CAP: u64 = 1_000_000_000_000_000_000;

/// Largest well-formed pump rate (10^6 kg/s).
pub const PUMP_CAP: u64 = 1_000_000_000_000_000;

/// Largest well-formed simulated time span (10^9 s).
pub const TIME_CAP: u64 = 1_000_000_000_000_000_000;

/// Largest well-formed single term of the pipe wall's thermal resistance
/// (10^9 K/W).
pub const TERM_CAP: u64 = 1_000_000_000_000_000_000;

/// Largest well-formed logarithm of the pipe radius ratio
/// (dimensionless 100).
pub const LN_CAP: u64 = 100_000_000_000;

/// A product of two 64-bit quantities always fits the 128-bit
/// intermediates the crate computes with.
pub broadcast proof fn lemma_u64_mul_fits_u128(x: u64, y: u64)
    ensures
        #[trigger] (x * y) <= u128::MAX,
{
    assert(x * y <= (u64::MAX as int) * (u64::MAX as int)) by (nonlinear_arith)
        requires
            x <= u64::MAX,
            y <= u64::MAX,
    ;
}

/// Product of two scaled quantities, rescaled: the scaled representation of
/// the physical product, rounded down.
pub fn scaled_mul(a: u64, b: u64) -> (r: u64)
    requires
        a * b / (SCALE as int) <= u64::MAX,
    ensures
        r == a * b / (SCALE as int),
{
    let p: u128 = (a as u128) * (b as u128);
    (p / (SCALE as u128)) as u64
}

} // verus!

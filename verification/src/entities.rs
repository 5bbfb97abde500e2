//! The thermodynamic entities of the loop and their heat-transfer models.
//!
//! Each entity is a lumped mass at one temperature holding one body of
//! water.  A step exchanges heat between the wall and the water: the same
//! quantum of heat leaves one side and enters the other, each side's
//! temperature moving by that quantum divided by its thermal mass.  The
//! heat-rate coefficient (watts per kelvin of temperature difference)
//! differs per entity kind: a pipe derives it from radial conduction
//! through its wall in series with external convection, a tank from a
//! convective coefficient supplied by its caller per step, a panel from a
//! fixed coefficient and its area.

use vstd::prelude::*;

use crate::units::{
    AREA_CAP, COEFF_CAP, COND_CAP, CONV_CAP, DT_MAX, GEOM_CAP, LN_CAP, MASS_CAP, POWER_CAP, SCALE,
    SCALE_SQ, SPEC_HEAT_CAP, TEMP_MAX, TERM_CAP, TWO_PI, WATER_SPECIFIC_HEAT,
};
use crate::water::{mix_water, Water};

verus! {

broadcast use crate::units::lemma_u64_mul_fits_u128;

/// The ways the simulator refuses an input.
#[derive(Clone, Copy, PartialEq, Eq, Structural, Debug)]
pub enum SimError {
    /// An entity was constructed with an impossible or out-of-range
    /// geometry or material parameter: an exterior radius not above the
    /// interior one, a non-positive dimension, mass or specific heat, or a
    /// magnitude beyond the range caps of the fixed scale.
    InvalidGeometry,
    /// During the given tick the tank's correlation left its numeric
    /// domain: its water was at or below the viscosity limit, or the
    /// supplied convective coefficient was out of range (as a non-finite
    /// correlation result is).  The tank is the only entity whose model
    /// restricts temperature this way.
    ViscosityDomain { tick: u64 },
}

/// Temperature change of a thermal mass that absorbs the heat `delta_q`:
/// the heat divided by mass times specific heat, rounded down.
pub open spec fn spec_dtemp(delta_q: int, mass: u64, specific_heat: u64) -> int {
    delta_q * SCALE_SQ / (mass * specific_heat)
}

/// Calculates the change in temperature from the input energy, the mass,
/// and the specific heat of the heated or cooled body.
pub fn calculate_dtemp(delta_q: u64, mass: u64, specific_heat: u64) -> (r: u64)
    requires
        mass * specific_heat >= SCALE_SQ,
    ensures
        r == spec_dtemp(delta_q as int, mass, specific_heat),
        r <= delta_q,
{
    proof {
        let num: int = delta_q * SCALE_SQ;
        let den: int = mass * specific_heat;
        vstd::arithmetic::div_mod::lemma_div_is_ordered_by_denominator(num, SCALE_SQ as int, den);
        assert(num / (SCALE_SQ as int) == delta_q) by {
            vstd::arithmetic::div_mod::lemma_div_multiples_vanish(delta_q as int, SCALE_SQ as int);
            assert(delta_q * SCALE_SQ == SCALE_SQ * delta_q) by (nonlinear_arith);
        };
        assert(num / den <= delta_q);
    }
    let num: u128 = (delta_q as u128) * (SCALE_SQ as u128);
    let den: u128 = (mass as u128) * (specific_heat as u128);
    (num / den) as u64
}

// ------------------------------------------------------------------
// The wall-water heat exchange shared by every entity kind.
// ------------------------------------------------------------------

/// Heat, in scaled joules, exchanged over one step between a wall and its
/// water through a heat-rate coefficient `coeff` (scaled watts per
/// kelvin), at a temperature gap of `gap` scaled kelvin: the instantaneous
/// rate times the step length, rounded down at each rescaling.
pub open spec fn exchange_dq(coeff: int, gap: int, delta_t: u64) -> int {
    (coeff * gap / (SCALE as int)) * delta_t / (SCALE as int)
}

/// The magnitude of the temperature gap between a wall and its water.
pub open spec fn temp_gap(wall: u64, wtr: Water) -> int {
    if wtr.temp >= wall {
        wtr.temp - wall
    } else {
        wall - wtr.temp
    }
}

/// Whether one exchange step is small enough to be taken: the two
/// temperature movements together do not exceed the gap, so the step
/// cannot overshoot the equilibrium.  The caller owes this by choosing a
/// sufficiently small time step.
pub open spec fn exchange_small(wall: u64, wtr: Water, coeff: int, mass: u64, specific_heat: u64, delta_t: u64) -> bool {
    let dq = exchange_dq(coeff, temp_gap(wall, wtr), delta_t);
    spec_dtemp(dq, mass, specific_heat) + spec_dtemp(dq, wtr.mass, WATER_SPECIFIC_HEAT)
        <= temp_gap(wall, wtr)
}

/// Wall temperature after one exchange step: it moves toward the water's
/// temperature by the exchanged heat divided by the wall's thermal mass.
pub open spec fn exchanged_wall_temp(wall: u64, wtr: Water, coeff: int, mass: u64, specific_heat: u64, delta_t: u64) -> int {
    let d = spec_dtemp(exchange_dq(coeff, temp_gap(wall, wtr), delta_t), mass, specific_heat);
    if wtr.temp >= wall {
        wall + d
    } else {
        wall - d
    }
}

/// Water temperature after one exchange step: it moves toward the wall's
/// temperature by the same exchanged heat divided by the water's thermal
/// mass, so the quantum lost by one side is the quantum gained by the
/// other.
pub open spec fn exchanged_water_temp(wall: u64, wtr: Water, coeff: int, delta_t: u64) -> int {
    let d = spec_dtemp(
        exchange_dq(coeff, temp_gap(wall, wtr), delta_t),
        wtr.mass,
        WATER_SPECIFIC_HEAT,
    );
    if wtr.temp >= wall {
        wtr.temp - d
    } else {
        wtr.temp + d
    }
}

/// Performs one wall-water exchange step and returns the new wall and
/// water temperatures.  Both move toward each other without crossing, so
/// each stays between the two start-of-step temperatures.
fn exchange_step(wall: u64, wtr: Water, coeff: u64, mass: u64, specific_heat: u64, delta_t: u64) -> (r: (u64, u64))
    requires
        wall <= TEMP_MAX,
        wtr.wf(),
        coeff <= COEFF_CAP,
        mass * specific_heat >= SCALE_SQ,
        wtr.mass * WATER_SPECIFIC_HEAT >= SCALE_SQ,
        1 <= delta_t <= DT_MAX,
        exchange_small(wall, wtr, coeff as int, mass, specific_heat, delta_t),
    ensures
        r.0 == exchanged_wall_temp(wall, wtr, coeff as int, mass, specific_heat, delta_t),
        r.1 == exchanged_water_temp(wall, wtr, coeff as int, delta_t),
        wtr.temp >= wall ==> wall <= r.0 <= r.1 <= wtr.temp,
        wtr.temp < wall ==> wtr.temp <= r.1 <= r.0 <= wall,
{
    let gap: u64 = if wtr.temp >= wall {
        wtr.temp - wall
    } else {
        wall - wtr.temp
    };
    proof {
        assert(coeff * gap <= COEFF_CAP * TEMP_MAX) by (nonlinear_arith)
            requires
                0 <= coeff <= COEFF_CAP,
                0 <= gap <= TEMP_MAX,
        ;
        vstd::arithmetic::div_mod::lemma_div_is_ordered(
            coeff * gap,
            COEFF_CAP * TEMP_MAX,
            SCALE as int,
        );
    }
    let rate: u64 = crate::units::scaled_mul(coeff, gap);
    proof {
        assert(rate * delta_t <= (COEFF_CAP * TEMP_MAX / (SCALE as int)) * DT_MAX) by (nonlinear_arith)
            requires
                0 <= rate <= COEFF_CAP * TEMP_MAX / (SCALE as int),
                0 <= delta_t <= DT_MAX,
        ;
        vstd::arithmetic::div_mod::lemma_div_is_ordered(
            rate * delta_t,
            (COEFF_CAP * TEMP_MAX / (SCALE as int)) * DT_MAX,
            SCALE as int,
        );
    }
    let dq: u64 = crate::units::scaled_mul(rate, delta_t);
    let d_wall: u64 = calculate_dtemp(dq, mass, specific_heat);
    let d_wtr: u64 = calculate_dtemp(dq, wtr.mass, WATER_SPECIFIC_HEAT);
    if wtr.temp >= wall {
        (wall + d_wall, wtr.temp - d_wtr)
    } else {
        (wall - d_wall, wtr.temp + d_wtr)
    }
}

/// Checks the no-overshoot condition of one exchange step through
/// 128-bit arithmetic.
fn exchange_small_check(wall: u64, wtr: Water, coeff: u64, mass: u64, specific_heat: u64, delta_t: u64) -> (b: bool)
    requires
        coeff <= COEFF_CAP,
        wall <= TEMP_MAX,
        wtr.temp <= TEMP_MAX,
        mass * specific_heat >= SCALE_SQ,
        wtr.mass * WATER_SPECIFIC_HEAT >= SCALE_SQ,
        delta_t <= DT_MAX,
    ensures
        b == exchange_small(wall, wtr, coeff as int, mass, specific_heat, delta_t),
{
    let gap: u64 = if wtr.temp >= wall {
        wtr.temp - wall
    } else {
        wall - wtr.temp
    };
    proof {
        assert(coeff * gap <= COEFF_CAP * TEMP_MAX) by (nonlinear_arith)
            requires
                0 <= coeff <= COEFF_CAP,
                0 <= gap <= TEMP_MAX,
        ;
        vstd::arithmetic::div_mod::lemma_div_is_ordered(
            coeff * gap,
            COEFF_CAP * TEMP_MAX,
            SCALE as int,
        );
        vstd::arithmetic::div_mod::lemma_div_pos_is_pos(coeff * gap, SCALE as int);
    }
    let rate: u128 = (coeff as u128) * (gap as u128) / (SCALE as u128);
    proof {
        assert(rate * delta_t <= (COEFF_CAP * TEMP_MAX / (SCALE as int)) * DT_MAX)
            by (nonlinear_arith)
            requires
                0 <= rate <= COEFF_CAP * TEMP_MAX / (SCALE as int),
                0 <= delta_t <= DT_MAX,
        ;
        vstd::arithmetic::div_mod::lemma_div_is_ordered(
            rate * delta_t,
            (COEFF_CAP * TEMP_MAX / (SCALE as int)) * DT_MAX,
            SCALE as int,
        );
        vstd::arithmetic::div_mod::lemma_div_pos_is_pos(rate * delta_t, SCALE as int);
    }
    let dq: u128 = rate * (delta_t as u128) / (SCALE as u128);
    proof {
        assert(dq * SCALE_SQ <= ((COEFF_CAP * TEMP_MAX / (SCALE as int)) * DT_MAX / (
        SCALE as int)) * SCALE_SQ) by (nonlinear_arith)
            requires
                0 <= dq <= (COEFF_CAP * TEMP_MAX / (SCALE as int)) * DT_MAX / (SCALE as int),
        ;
    }
    proof {
        vstd::arithmetic::div_mod::lemma_div_nonincreasing(dq * SCALE_SQ, mass * specific_heat);
        vstd::arithmetic::div_mod::lemma_div_nonincreasing(
            dq * SCALE_SQ,
            wtr.mass * WATER_SPECIFIC_HEAT,
        );
    }
    let dwall: u128 = dq * (SCALE_SQ as u128) / ((mass as u128) * (specific_heat as u128));
    let dwtr: u128 = dq * (SCALE_SQ as u128) / ((wtr.mass as u128) * (WATER_SPECIFIC_HEAT
        as u128));
    dwall + dwtr <= gap as u128
}

// ------------------------------------------------------------------
// The entity capability contract.
// ------------------------------------------------------------------

/// A thermodynamic entity that contains water.
///
/// `step` advances the entity's temperature state by one time increment
/// from its start-of-step state; `get_water` and `set_water` are the two
/// required primitives, and `add_water` / `take_water` are provided once
/// on top of them, so every entity has identical water-exchange
/// semantics.
pub trait Entity: Sized {
    /// The water this entity currently holds.
    spec fn water_model(&self) -> Water;

    /// This entity holding `w` instead of its water, every other field
    /// unchanged.
    spec fn with_water(&self, w: Water) -> Self;

    /// Whether a step of `delta_t` may be taken from this state: the
    /// entity is well formed and the step is small enough not to
    /// overshoot.
    spec fn step_ready(&self, delta_t: u64) -> bool;

    /// The state after one step of `delta_t`.
    spec fn stepped(&self, delta_t: u64) -> Self;

    /// Checks whether a step of `delta_t` may be taken from this state,
    /// so that an unverified caller can establish `step`'s precondition
    /// at run time.
    fn can_step(&self, delta_t: u64) -> (b: bool)
        ensures
            b == self.step_ready(delta_t),
    ;

    /// Updates this entity's temperature state over a timestep `delta_t`,
    /// using its own heat-rate correlation evaluated at the start-of-step
    /// temperatures.
    fn step(&mut self, delta_t: u64)
        requires
            old(self).step_ready(delta_t),
        ensures
            *final(self) == old(self).stepped(delta_t),
    ;

    fn get_water(&self) -> (w: Water)
        ensures
            w == self.water_model(),
    ;

    fn set_water(&mut self, water: Water)
        ensures
            *final(self) == old(self).with_water(water),
    ;

    /// Adds water to this entity: the new body is the mixture of the
    /// current water and the added water, at the mass-weighted average
    /// temperature.
    fn add_water(&mut self, added_water: &Water)
        requires
            old(self).water_model().wf(),
            added_water.wf(),
            old(self).water_model().mass + added_water.mass >= 1,
            old(self).water_model().mass + added_water.mass <= MASS_CAP,
        ensures
            *final(self) == old(self).with_water(
                Water::mixed(old(self).water_model(), *added_water),
            ),
    {
        let curr_water = self.get_water();
        let new_water = mix_water(curr_water, *added_water);
        self.set_water(new_water);
    }

    /// Takes water from this entity: at most the available mass leaves,
    /// silently saturating, and both the removed portion and the
    /// remainder keep the pre-removal temperature.
    fn take_water(&mut self, mass: u64) -> (taken: Water)
        ensures
            taken == old(self).water_model().taken(mass),
            *final(self) == old(self).with_water(old(self).water_model().drained(mass)),
    {
        let mut water = self.get_water();
        let mass_to_take: u64 = if mass > water.mass {
            water.mass
        } else {
            mass
        };
        water.mass = water.mass - mass_to_take;
        self.set_water(water);
        Water { mass: mass_to_take, temp: water.temp }
    }
}

// ------------------------------------------------------------------
// Pipe.
// ------------------------------------------------------------------

/// A pipe wall at a specific point in time, exchanging heat with the
/// water it carries by radial conduction in series with external
/// convection.
#[derive(Clone, Copy, PartialEq, Eq, Structural, Debug)]
pub struct Pipe {
    /// Current temperature of the pipe wall, scaled kelvin.
    pub temp: u64,
    /// Mass of the dry pipe, scaled kilograms.
    pub mass: u64,
    /// Interior radius, scaled metres.
    pub rad_int: u64,
    /// Exterior radius, scaled metres.
    pub rad_ext: u64,
    /// Length, scaled metres.
    pub length: u64,
    /// Specific heat of the wall material, scaled J/(kg K).
    pub specific_heat: u64,
    /// Thermal conductivity of the wall material, scaled W/(m K).
    pub thermal_cond: u64,
    /// External convection coefficient, scaled W/(m^2 K): a per-scenario
    /// installation constant (bare, insulated or submerged pipe), not a
    /// universal one.
    pub h_ext: u64,
    /// Natural logarithm of `rad_ext / rad_int`, scaled.  The caller
    /// evaluates the logarithm and supplies it at construction, since the
    /// crate's arithmetic is integral.
    pub ln_radius_ratio: u64,
    /// The water contained in this pipe.
    pub water: Water,
}

/// First term of the pipe wall's thermal resistance per metre: the inverse
/// of the interior film coefficient times the interior radius, with that
/// coefficient taken as conductivity over wall thickness.
pub open spec fn pipe_term_wall(p: Pipe) -> int {
    (p.rad_ext - p.rad_int) * SCALE_SQ / (p.thermal_cond * p.rad_int)
}

/// Second term: the logarithm of the radius ratio over the conductivity.
pub open spec fn pipe_term_log(p: Pipe) -> int {
    p.ln_radius_ratio * SCALE / (p.thermal_cond as int)
}

/// Third term: the inverse of the external convection coefficient times
/// the exterior radius.
pub open spec fn pipe_term_ext(p: Pipe) -> int {
    SCALE_SQ * SCALE / (p.h_ext * p.rad_ext)
}

/// Thermal resistance of the cylindrical wall in series with external
/// convection, per metre of pipe.
pub open spec fn pipe_resistance(p: Pipe) -> int {
    pipe_term_wall(p) + pipe_term_log(p) + pipe_term_ext(p)
}

/// Heat-rate coefficient of the pipe, scaled watts per kelvin: the
/// circumference factor times the length over the resistance.
pub open spec fn pipe_coeff(p: Pipe) -> int {
    (TWO_PI * p.length / (SCALE as int)) * SCALE / pipe_resistance(p)
}

impl Pipe {
    /// Well-formedness: positive geometry with the exterior radius above
    /// the interior one, positive material constants, everything under
    /// the range caps, and a heat-rate coefficient that stays
    /// representable.
    pub open spec fn wf(self) -> bool {
        &&& 1 <= self.rad_int
        &&& self.rad_int < self.rad_ext
        &&& self.rad_ext <= GEOM_CAP
        &&& 1 <= self.length <= GEOM_CAP
        &&& 1 <= self.mass <= MASS_CAP
        &&& 1 <= self.specific_heat <= SPEC_HEAT_CAP
        &&& self.mass * self.specific_heat >= SCALE_SQ
        &&& 1 <= self.thermal_cond <= COND_CAP
        &&& 1 <= self.h_ext <= CONV_CAP
        &&& 1 <= self.ln_radius_ratio <= LN_CAP
        &&& self.temp <= TEMP_MAX
        &&& self.water.wf()
        &&& pipe_term_wall(self) <= TERM_CAP
        &&& pipe_term_log(self) <= TERM_CAP
        &&& pipe_term_ext(self) <= TERM_CAP
        &&& pipe_resistance(self) >= 1
        &&& pipe_coeff(self) <= COEFF_CAP
    }

    /// Evaluates the three resistance terms through 128-bit arithmetic.
    fn resistance_terms(&self) -> (r: (u128, u128, u128))
        requires
            1 <= self.rad_int,
            self.rad_int < self.rad_ext,
            self.rad_ext <= GEOM_CAP,
            1 <= self.thermal_cond,
            1 <= self.h_ext,
            self.ln_radius_ratio <= LN_CAP,
        ensures
            r.0 == pipe_term_wall(*self),
            r.1 == pipe_term_log(*self),
            r.2 == pipe_term_ext(*self),
            r.0 <= GEOM_CAP * SCALE_SQ,
            r.1 <= LN_CAP * SCALE,
            r.2 <= SCALE_SQ * SCALE,
    {
        proof {
            assert(self.thermal_cond * self.rad_int >= 1) by (nonlinear_arith)
                requires
                    self.thermal_cond >= 1,
                    self.rad_int >= 1,
            ;
            assert(self.h_ext * self.rad_ext >= 1) by (nonlinear_arith)
                requires
                    self.h_ext >= 1,
                    self.rad_ext >= 1,
            ;
            vstd::arithmetic::div_mod::lemma_div_nonincreasing(
                (self.rad_ext - self.rad_int) * SCALE_SQ,
                self.thermal_cond * self.rad_int,
            );
            vstd::arithmetic::mul::lemma_mul_inequality(
                self.rad_ext - self.rad_int,
                GEOM_CAP as int,
                SCALE_SQ as int,
            );
            vstd::arithmetic::mul::lemma_mul_inequality(
                self.ln_radius_ratio as int,
                LN_CAP as int,
                SCALE as int,
            );
            vstd::arithmetic::div_mod::lemma_div_nonincreasing(
                self.ln_radius_ratio * SCALE,
                self.thermal_cond as int,
            );
            vstd::arithmetic::div_mod::lemma_div_nonincreasing(
                SCALE_SQ * SCALE,
                self.h_ext * self.rad_ext,
            );
        }
        let t1: u128 = (self.rad_ext - self.rad_int) as u128 * (SCALE_SQ as u128) / (
        (self.thermal_cond as u128) * (self.rad_int as u128));
        let t2: u128 = (self.ln_radius_ratio as u128) * (SCALE as u128) / (self.thermal_cond
            as u128);
        let t3: u128 = (SCALE_SQ as u128) * (SCALE as u128) / ((self.h_ext as u128) * (self.rad_ext
            as u128));
        (t1, t2, t3)
    }

    /// Evaluates the heat-rate coefficient, telling apart the states
    /// whose derived quantities leave the representable range: the result
    /// is `Some` exactly when every resistance term, the total
    /// resistance, and the coefficient are in range.
    fn coeff_checked(&self) -> (r: Option<u64>)
        requires
            1 <= self.rad_int,
            self.rad_int < self.rad_ext,
            self.rad_ext <= GEOM_CAP,
            1 <= self.length <= GEOM_CAP,
            1 <= self.thermal_cond,
            1 <= self.h_ext,
            self.ln_radius_ratio <= LN_CAP,
        ensures
            r is Some <==> {
                &&& pipe_term_wall(*self) <= TERM_CAP
                &&& pipe_term_log(*self) <= TERM_CAP
                &&& pipe_term_ext(*self) <= TERM_CAP
                &&& pipe_resistance(*self) >= 1
                &&& pipe_coeff(*self) <= COEFF_CAP
            },
            r matches Some(c) ==> c == pipe_coeff(*self),
    {
        let t = self.resistance_terms();
        if t.0 > TERM_CAP as u128 {
            return None;
        }
        if t.1 > TERM_CAP as u128 {
            return None;
        }
        if t.2 > TERM_CAP as u128 {
            return None;
        }
        let d: u128 = t.0 + t.1 + t.2;
        if d < 1 {
            return None;
        }
        proof {
            vstd::arithmetic::div_mod::lemma_div_is_ordered(
                TWO_PI * self.length,
                TWO_PI * GEOM_CAP,
                SCALE as int,
            );
        }
        let tp: u128 = (TWO_PI as u128) * (self.length as u128) / (SCALE as u128);
        let c: u128 = tp * (SCALE as u128) / d;
        if c > COEFF_CAP as u128 {
            None
        } else {
            Some(c as u64)
        }
    }

    /// Checks well-formedness; the range conditions on the derived
    /// resistance terms are evaluated through 128-bit arithmetic.
    pub fn is_wf(&self) -> (b: bool)
        ensures
            b == self.wf(),
    {
        if !(1 <= self.rad_int && self.rad_int < self.rad_ext && self.rad_ext <= GEOM_CAP) {
            return false;
        }
        if !(1 <= self.length && self.length <= GEOM_CAP) {
            return false;
        }
        if !(1 <= self.mass && self.mass <= MASS_CAP) {
            return false;
        }
        if !(1 <= self.specific_heat && self.specific_heat <= SPEC_HEAT_CAP) {
            return false;
        }
        if (self.mass as u128) * (self.specific_heat as u128) < (SCALE_SQ as u128) {
            return false;
        }
        if !(1 <= self.thermal_cond && self.thermal_cond <= COND_CAP) {
            return false;
        }
        if !(1 <= self.h_ext && self.h_ext <= CONV_CAP) {
            return false;
        }
        if !(1 <= self.ln_radius_ratio && self.ln_radius_ratio <= LN_CAP) {
            return false;
        }
        if !(self.temp <= TEMP_MAX) {
            return false;
        }
        if !(self.water.mass <= MASS_CAP && self.water.temp <= TEMP_MAX) {
            return false;
        }
        self.coeff_checked().is_some()
    }

    /// Builds a pipe, rejecting impossible or out-of-range parameters at
    /// construction time: the result is `Ok` exactly when the assembled
    /// pipe is well formed, and `InvalidGeometry` otherwise.
    #[allow(clippy::too_many_arguments)]
    pub fn new(
        temp: u64,
        mass: u64,
        rad_int: u64,
        rad_ext: u64,
        length: u64,
        specific_heat: u64,
        thermal_cond: u64,
        h_ext: u64,
        ln_radius_ratio: u64,
        water: Water,
    ) -> (r: Result<Pipe, SimError>)
        ensures
            r is Ok <==> (Pipe {
                temp,
                mass,
                rad_int,
                rad_ext,
                length,
                specific_heat,
                thermal_cond,
                h_ext,
                ln_radius_ratio,
                water,
            }).wf(),
            r is Ok ==> r->Ok_0 == (Pipe {
                temp,
                mass,
                rad_int,
                rad_ext,
                length,
                specific_heat,
                thermal_cond,
                h_ext,
                ln_radius_ratio,
                water,
            }) && r->Ok_0.wf(),
            r is Err ==> r->Err_0 == SimError::InvalidGeometry,
    {
        let p = Pipe {
            temp,
            mass,
            rad_int,
            rad_ext,
            length,
            specific_heat,
            thermal_cond,
            h_ext,
            ln_radius_ratio,
            water,
        };
        if p.is_wf() {
            Ok(p)
        } else {
            Err(SimError::InvalidGeometry)
        }
    }

    /// Evaluates the pipe's heat-rate coefficient from its geometry and
    /// material constants.
    pub fn heat_coeff(&self) -> (c: u64)
        requires
            self.wf(),
        ensures
            c == pipe_coeff(*self),
            c <= COEFF_CAP,
    {
        match self.coeff_checked() {
            Some(c) => c,
            None => {
                proof {
                    assert(false);
                }
                0
            },
        }
    }
}

/// Readiness of a pipe step: well-formed state, a bounded positive time
/// step, enough water for a finite temperature response, and a step small
/// enough not to overshoot.
pub open spec fn pipe_step_ready(p: Pipe, delta_t: u64) -> bool {
    &&& p.wf()
    &&& 1 <= delta_t <= DT_MAX
    &&& p.water.mass * WATER_SPECIFIC_HEAT >= SCALE_SQ
    &&& exchange_small(p.temp, p.water, pipe_coeff(p), p.mass, p.specific_heat, delta_t)
}

/// The pipe after one step: wall and water temperatures move toward each
/// other by the exchanged heat over the respective thermal masses; every
/// other field is unchanged.
pub open spec fn pipe_stepped(p: Pipe, delta_t: u64) -> Pipe {
    Pipe {
        temp: exchanged_wall_temp(
            p.temp,
            p.water,
            pipe_coeff(p),
            p.mass,
            p.specific_heat,
            delta_t,
        ) as u64,
        water: Water {
            temp: exchanged_water_temp(p.temp, p.water, pipe_coeff(p), delta_t) as u64,
            mass: p.water.mass,
        },
        ..p
    }
}

impl Entity for Pipe {
    open spec fn water_model(&self) -> Water {
        self.water
    }

    open spec fn with_water(&self, w: Water) -> Pipe {
        Pipe { water: w, ..*self }
    }

    open spec fn step_ready(&self, delta_t: u64) -> bool {
        pipe_step_ready(*self, delta_t)
    }

    open spec fn stepped(&self, delta_t: u64) -> Pipe {
        pipe_stepped(*self, delta_t)
    }

    fn can_step(&self, delta_t: u64) -> (b: bool) {
        if !self.is_wf() {
            return false;
        }
        if !(1 <= delta_t && delta_t <= DT_MAX) {
            return false;
        }
        if (self.water.mass as u128) * (WATER_SPECIFIC_HEAT as u128) < (SCALE_SQ as u128) {
            return false;
        }
        let coeff = self.heat_coeff();
        exchange_small_check(self.temp, self.water, coeff, self.mass, self.specific_heat, delta_t)
    }

    fn step(&mut self, delta_t: u64) {
        let coeff = self.heat_coeff();
        let r = exchange_step(
            self.temp,
            self.water,
            coeff,
            self.mass,
            self.specific_heat,
            delta_t,
        );
        self.temp = r.0;
        self.water.temp = r.1;
    }

    fn get_water(&self) -> Water {
        self.water
    }

    fn set_water(&mut self, water: Water) {
        self.water = water;
    }
}

/// The heat-rate coefficient of a well-formed pipe is nonnegative.
pub proof fn lemma_pipe_coeff_nonneg(p: Pipe)
    requires
        p.wf(),
    ensures
        0 <= pipe_coeff(p) <= COEFF_CAP,
{
    vstd::arithmetic::div_mod::lemma_div_pos_is_pos(TWO_PI * p.length, SCALE as int);
    vstd::arithmetic::mul::lemma_mul_nonnegative(TWO_PI * p.length / (SCALE as int), SCALE as int);
    vstd::arithmetic::div_mod::lemma_div_pos_is_pos(
        (TWO_PI * p.length / (SCALE as int)) * SCALE,
        pipe_resistance(p),
    );
}

/// Both temperature movements of an exchange step are nonnegative, and
/// the two new temperatures stay between the two old ones without
/// crossing.
pub proof fn lemma_exchange_in_range(wall: u64, wtr: Water, coeff: int, mass: u64, specific_heat: u64, delta_t: u64)
    requires
        0 <= coeff,
        mass * specific_heat >= SCALE_SQ,
        wtr.mass * WATER_SPECIFIC_HEAT >= SCALE_SQ,
        exchange_small(wall, wtr, coeff, mass, specific_heat, delta_t),
    ensures
        0 <= exchange_dq(coeff, temp_gap(wall, wtr), delta_t),
        0 <= spec_dtemp(exchange_dq(coeff, temp_gap(wall, wtr), delta_t), mass, specific_heat),
        0 <= spec_dtemp(
            exchange_dq(coeff, temp_gap(wall, wtr), delta_t),
            wtr.mass,
            WATER_SPECIFIC_HEAT,
        ),
        wtr.temp >= wall ==> wall <= exchanged_wall_temp(wall, wtr, coeff, mass, specific_heat, delta_t)
            <= exchanged_water_temp(wall, wtr, coeff, delta_t) <= wtr.temp,
        wtr.temp < wall ==> wtr.temp <= exchanged_water_temp(wall, wtr, coeff, delta_t)
            <= exchanged_wall_temp(wall, wtr, coeff, mass, specific_heat, delta_t) <= wall,
{
    let gap = temp_gap(wall, wtr);
    vstd::arithmetic::mul::lemma_mul_nonnegative(coeff, gap);
    vstd::arithmetic::div_mod::lemma_div_pos_is_pos(coeff * gap, SCALE as int);
    vstd::arithmetic::mul::lemma_mul_nonnegative(coeff * gap / (SCALE as int), delta_t as int);
    vstd::arithmetic::div_mod::lemma_div_pos_is_pos(
        (coeff * gap / (SCALE as int)) * delta_t,
        SCALE as int,
    );
    let dq = exchange_dq(coeff, gap, delta_t);
    vstd::arithmetic::div_mod::lemma_div_pos_is_pos(dq * SCALE_SQ, mass * specific_heat);
    vstd::arithmetic::div_mod::lemma_div_pos_is_pos(
        dq * SCALE_SQ,
        wtr.mass * WATER_SPECIFIC_HEAT,
    );
}

/// Equilibrium convergence of a pipe step: with the water warmer than
/// the wall, one small-enough step moves both temperatures toward each
/// other without crossing, so the temperature gap never grows; and
/// whenever the step moves either temperature at all, the gap strictly
/// shrinks.  A heat quantum too small for the integer scale moves
/// nothing, so strict decrease is owed exactly when some movement
/// happens.
pub proof fn lemma_pipe_cooling_monotone(p: Pipe, delta_t: u64)
    requires
        pipe_step_ready(p, delta_t),
        p.water.temp > p.temp,
    ensures
        ({
            let q = pipe_stepped(p, delta_t);
            let dq = exchange_dq(pipe_coeff(p), temp_gap(p.temp, p.water), delta_t);
            &&& q.water.temp >= q.temp
            &&& q.water.temp - q.temp == p.water.temp - p.temp - spec_dtemp(
                dq,
                p.mass,
                p.specific_heat,
            ) - spec_dtemp(dq, p.water.mass, WATER_SPECIFIC_HEAT)
            &&& q.water.temp - q.temp <= p.water.temp - p.temp
            &&& (q.temp != p.temp || q.water.temp != p.water.temp) ==> q.water.temp - q.temp
                < p.water.temp - p.temp
        }),
{
    lemma_pipe_coeff_nonneg(p);
    lemma_exchange_in_range(p.temp, p.water, pipe_coeff(p), p.mass, p.specific_heat, delta_t);
}

// ------------------------------------------------------------------
// Tank.
// ------------------------------------------------------------------

/// A liquid tank whose internal liquid is modelled as one well-mixed
/// average temperature.  Heat moves between the dry tank and its water
/// through natural convection along the side of the cylinder only; the
/// top and bottom are intentionally ignored, a stated simplification of
/// the model.
#[derive(Clone, Copy, PartialEq, Eq, Structural, Debug)]
pub struct Tank {
    /// Mass of the dry tank, scaled kilograms.
    pub mass: u64,
    /// Height, scaled metres.
    pub height: u64,
    /// Radius, scaled metres.
    pub radius: u64,
    /// Specific heat of the dry tank, scaled J/(kg K).
    pub specific_heat: u64,
    /// Average temperature of the dry tank, scaled kelvin.
    pub temp: u64,
    /// Convective heat-transfer coefficient along the side wall, scaled
    /// W/(m^2 K).  The natural-convection correlation that produces it
    /// works on transcendental functions of the water state, so the
    /// caller evaluates it and deposits the result here before each step.
    pub conv_coeff: u64,
    /// The water contained in this tank.
    pub water: Water,
}

/// Lateral surface of the tank's cylinder, scaled square metres.
pub open spec fn tank_area(t: Tank) -> int {
    (TWO_PI * t.radius / (SCALE as int)) * t.height / (SCALE as int)
}

/// Heat-rate coefficient of the tank, scaled watts per kelvin: the
/// convective coefficient times the lateral surface.
pub open spec fn tank_coeff(t: Tank) -> int {
    t.conv_coeff * tank_area(t) / (SCALE as int)
}

impl Tank {
    /// Well-formedness: positive geometry, positive mass and specific
    /// heat, everything under the range caps.
    pub open spec fn wf(self) -> bool {
        &&& 1 <= self.height <= GEOM_CAP
        &&& 1 <= self.radius <= GEOM_CAP
        &&& 1 <= self.mass <= MASS_CAP
        &&& 1 <= self.specific_heat <= SPEC_HEAT_CAP
        &&& self.mass * self.specific_heat >= SCALE_SQ
        &&& self.temp <= TEMP_MAX
        &&& self.conv_coeff <= CONV_CAP
        &&& self.water.wf()
    }

    /// Checks well-formedness.
    pub fn is_wf(&self) -> (b: bool)
        ensures
            b == self.wf(),
    {
        1 <= self.height && self.height <= GEOM_CAP && 1 <= self.radius && self.radius <= GEOM_CAP
            && 1 <= self.mass && self.mass <= MASS_CAP && 1 <= self.specific_heat
            && self.specific_heat <= SPEC_HEAT_CAP && (self.mass as u128) * (self.specific_heat
            as u128) >= (SCALE_SQ as u128) && self.temp <= TEMP_MAX && self.conv_coeff <= CONV_CAP
            && self.water.mass <= MASS_CAP && self.water.temp <= TEMP_MAX
    }

    /// Builds a tank with no convective coefficient set yet, rejecting
    /// impossible or out-of-range parameters at construction time: the
    /// result is `Ok` exactly when the assembled tank is well formed, and
    /// `InvalidGeometry` otherwise.
    pub fn new(mass: u64, height: u64, radius: u64, specific_heat: u64, temp: u64, water: Water) -> (r:
        Result<Tank, SimError>)
        ensures
            r is Ok <==> (Tank {
                mass,
                height,
                radius,
                specific_heat,
                temp,
                conv_coeff: 0,
                water,
            }).wf(),
            r is Ok ==> r->Ok_0 == (Tank {
                mass,
                height,
                radius,
                specific_heat,
                temp,
                conv_coeff: 0,
                water,
            }) && r->Ok_0.wf(),
            r is Err ==> r->Err_0 == SimError::InvalidGeometry,
    {
        let t = Tank { mass, height, radius, specific_heat, temp, conv_coeff: 0, water };
        if t.is_wf() {
            Ok(t)
        } else {
            Err(SimError::InvalidGeometry)
        }
    }

    /// Evaluates the tank's lateral surface.
    pub fn area(&self) -> (a: u64)
        requires
            1 <= self.radius <= GEOM_CAP,
            1 <= self.height <= GEOM_CAP,
        ensures
            a == tank_area(*self),
    {
        proof {
            vstd::arithmetic::div_mod::lemma_div_is_ordered(
                TWO_PI * self.radius,
                TWO_PI * GEOM_CAP,
                SCALE as int,
            );
            assert((TWO_PI * self.radius / (SCALE as int)) * self.height <= (TWO_PI * GEOM_CAP / (
            SCALE as int)) * GEOM_CAP) by (nonlinear_arith)
                requires
                    0 <= TWO_PI * self.radius / (SCALE as int) <= TWO_PI * GEOM_CAP / (SCALE as int),
                    0 <= self.height <= GEOM_CAP,
            ;
            vstd::arithmetic::div_mod::lemma_div_is_ordered(
                (TWO_PI * self.radius / (SCALE as int)) * self.height,
                (TWO_PI * GEOM_CAP / (SCALE as int)) * GEOM_CAP,
                SCALE as int,
            );
        }
        let c: u64 = crate::units::scaled_mul(TWO_PI, self.radius);
        crate::units::scaled_mul(c, self.height)
    }
}

/// Readiness of a tank step: well-formed state, a bounded positive time
/// step, enough water for a finite temperature response, a representable
/// heat-rate coefficient, and a step small enough not to overshoot.
pub open spec fn tank_step_ready(t: Tank, delta_t: u64) -> bool {
    &&& t.wf()
    &&& 1 <= delta_t <= DT_MAX
    &&& t.water.mass * WATER_SPECIFIC_HEAT >= SCALE_SQ
    &&& tank_coeff(t) <= COEFF_CAP
    &&& exchange_small(t.temp, t.water, tank_coeff(t), t.mass, t.specific_heat, delta_t)
}

/// The tank after one step: tank and water temperatures move toward each
/// other by the exchanged heat over the respective thermal masses; every
/// other field is unchanged.
pub open spec fn tank_stepped(t: Tank, delta_t: u64) -> Tank {
    Tank {
        temp: exchanged_wall_temp(
            t.temp,
            t.water,
            tank_coeff(t),
            t.mass,
            t.specific_heat,
            delta_t,
        ) as u64,
        water: Water {
            temp: exchanged_water_temp(t.temp, t.water, tank_coeff(t), delta_t) as u64,
            mass: t.water.mass,
        },
        ..t
    }
}

impl Entity for Tank {
    open spec fn water_model(&self) -> Water {
        self.water
    }

    open spec fn with_water(&self, w: Water) -> Tank {
        Tank { water: w, ..*self }
    }

    open spec fn step_ready(&self, delta_t: u64) -> bool {
        tank_step_ready(*self, delta_t)
    }

    open spec fn stepped(&self, delta_t: u64) -> Tank {
        tank_stepped(*self, delta_t)
    }

    fn can_step(&self, delta_t: u64) -> (b: bool) {
        if !self.is_wf() {
            return false;
        }
        if !(1 <= delta_t && delta_t <= DT_MAX) {
            return false;
        }
        if (self.water.mass as u128) * (WATER_SPECIFIC_HEAT as u128) < (SCALE_SQ as u128) {
            return false;
        }
        let area: u64 = self.area();
        let coeff_wide: u128 = (self.conv_coeff as u128) * (area as u128) / (SCALE as u128);
        if coeff_wide > COEFF_CAP as u128 {
            return false;
        }
        let coeff: u64 = coeff_wide as u64;
        exchange_small_check(self.temp, self.water, coeff, self.mass, self.specific_heat, delta_t)
    }

    fn step(&mut self, delta_t: u64) {
        let area: u64 = self.area();
        proof {
            assert(self.conv_coeff * area / (SCALE as int) <= COEFF_CAP);
        }
        let coeff: u64 = crate::units::scaled_mul(self.conv_coeff, area);
        let r = exchange_step(
            self.temp,
            self.water,
            coeff,
            self.mass,
            self.specific_heat,
            delta_t,
        );
        self.temp = r.0;
        self.water.temp = r.1;
    }

    fn get_water(&self) -> Water {
        self.water
    }

    fn set_water(&mut self, water: Water) {
        self.water = water;
    }
}

// ------------------------------------------------------------------
// Panel.
// ------------------------------------------------------------------

/// A heated panel exchanging heat with its water through a fixed
/// heat-transfer coefficient, with an external heat source feeding
/// directly into its energy balance every step.
#[derive(Clone, Copy, PartialEq, Eq, Structural, Debug)]
pub struct Panel {
    /// Mass of the dry panel, scaled kilograms.
    pub mass: u64,
    /// Heat-exchange area, scaled square metres.
    pub area: u64,
    /// Current temperature of the panel, scaled kelvin.
    pub temp: u64,
    /// External heat input into the system, scaled watts; constant unless
    /// reconfigured.
    pub input_w: u64,
    /// The water contained in this panel.
    pub water: Water,
    /// Specific heat of the dry panel, scaled J/(kg K).
    pub specific_heat: u64,
    /// The heat-transfer coefficient for this panel, scaled W/(m^2 K);
    /// it can differ significantly based on heat-exchanger design.
    pub heat_transfer_coefficient: u64,
}

/// Heat-rate coefficient of the panel, scaled watts per kelvin: the
/// heat-transfer coefficient times the area.
pub open spec fn panel_coeff(p: Panel) -> int {
    p.heat_transfer_coefficient * p.area / (SCALE as int)
}

/// Heat, in scaled joules, the external source feeds into the panel over
/// one step.
pub open spec fn panel_input_dq(p: Panel, delta_t: u64) -> int {
    p.input_w * delta_t / (SCALE as int)
}

/// Temperature rise of the panel over one step from the external source
/// alone.
pub open spec fn panel_input_dtemp(p: Panel, delta_t: u64) -> int {
    spec_dtemp(panel_input_dq(p, delta_t), p.mass, p.specific_heat)
}

impl Panel {
    /// Well-formedness: positive mass, area and specific heat, everything
    /// under the range caps, and a representable heat-rate coefficient.
    pub open spec fn wf(self) -> bool {
        &&& 1 <= self.mass <= MASS_CAP
        &&& 1 <= self.area <= AREA_CAP
        &&& 1 <= self.specific_heat <= SPEC_HEAT_CAP
        &&& self.mass * self.specific_heat >= SCALE_SQ
        &&& self.temp <= TEMP_MAX
        &&& self.input_w <= POWER_CAP
        &&& self.heat_transfer_coefficient <= CONV_CAP
        &&& panel_coeff(self) <= COEFF_CAP
        &&& self.water.wf()
    }

    /// Checks well-formedness.
    pub fn is_wf(&self) -> (b: bool)
        ensures
            b == self.wf(),
    {
        1 <= self.mass && self.mass <= MASS_CAP && 1 <= self.area && self.area <= AREA_CAP && 1
            <= self.specific_heat && self.specific_heat <= SPEC_HEAT_CAP && (self.mass as u128) * (
        self.specific_heat as u128) >= (SCALE_SQ as u128) && self.temp <= TEMP_MAX && self.input_w
            <= POWER_CAP && self.heat_transfer_coefficient <= CONV_CAP && (
        self.heat_transfer_coefficient as u128) * (self.area as u128) / (SCALE as u128) <= (
        COEFF_CAP as u128) && self.water.mass <= MASS_CAP && self.water.temp <= TEMP_MAX
    }

    /// Builds a panel, rejecting impossible or out-of-range parameters at
    /// construction time: the result is `Ok` exactly when the assembled
    /// panel is well formed, and `InvalidGeometry` otherwise.
    pub fn new(
        mass: u64,
        area: u64,
        temp: u64,
        input_w: u64,
        specific_heat: u64,
        heat_transfer_coefficient: u64,
        water: Water,
    ) -> (r: Result<Panel, SimError>)
        ensures
            r is Ok <==> (Panel {
                mass,
                area,
                temp,
                input_w,
                water,
                specific_heat,
                heat_transfer_coefficient,
            }).wf(),
            r is Ok ==> r->Ok_0 == (Panel {
                mass,
                area,
                temp,
                input_w,
                water,
                specific_heat,
                heat_transfer_coefficient,
            }) && r->Ok_0.wf(),
            r is Err ==> r->Err_0 == SimError::InvalidGeometry,
    {
        let p = Panel { mass, area, temp, input_w, water, specific_heat, heat_transfer_coefficient };
        if p.is_wf() {
            Ok(p)
        } else {
            Err(SimError::InvalidGeometry)
        }
    }
}

/// Readiness of a panel step: well-formed state, a bounded positive time
/// step, enough water for a finite temperature response, a step small
/// enough not to overshoot, and an external heat contribution that keeps
/// the panel temperature under its cap.
pub open spec fn panel_step_ready(p: Panel, delta_t: u64) -> bool {
    &&& p.wf()
    &&& 1 <= delta_t <= DT_MAX
    &&& p.water.mass * WATER_SPECIFIC_HEAT >= SCALE_SQ
    &&& exchange_small(p.temp, p.water, panel_coeff(p), p.mass, p.specific_heat, delta_t)
    &&& (if p.temp >= p.water.temp {
        p.temp
    } else {
        p.water.temp
    }) + panel_input_dtemp(p, delta_t) <= TEMP_MAX
}

/// The panel after one step: panel and water temperatures move toward
/// each other by the exchanged heat over the respective thermal masses,
/// and the panel additionally rises by the external input over its
/// thermal mass; every other field is unchanged.
pub open spec fn panel_stepped(p: Panel, delta_t: u64) -> Panel {
    Panel {
        temp: (exchanged_wall_temp(p.temp, p.water, panel_coeff(p), p.mass, p.specific_heat, delta_t)
            + panel_input_dtemp(p, delta_t)) as u64,
        water: Water {
            temp: exchanged_water_temp(p.temp, p.water, panel_coeff(p), delta_t) as u64,
            mass: p.water.mass,
        },
        ..p
    }
}

impl Entity for Panel {
    open spec fn water_model(&self) -> Water {
        self.water
    }

    open spec fn with_water(&self, w: Water) -> Panel {
        Panel { water: w, ..*self }
    }

    open spec fn step_ready(&self, delta_t: u64) -> bool {
        panel_step_ready(*self, delta_t)
    }

    open spec fn stepped(&self, delta_t: u64) -> Panel {
        panel_stepped(*self, delta_t)
    }

    fn can_step(&self, delta_t: u64) -> (b: bool) {
        if !self.is_wf() {
            return false;
        }
        if !(1 <= delta_t && delta_t <= DT_MAX) {
            return false;
        }
        if (self.water.mass as u128) * (WATER_SPECIFIC_HEAT as u128) < (SCALE_SQ as u128) {
            return false;
        }
        proof {
            assert(self.heat_transfer_coefficient * self.area / (SCALE as int) <= COEFF_CAP);
        }
        let coeff: u64 = crate::units::scaled_mul(self.heat_transfer_coefficient, self.area);
        if !exchange_small_check(
            self.temp,
            self.water,
            coeff,
            self.mass,
            self.specific_heat,
            delta_t,
        ) {
            return false;
        }
        proof {
            assert(self.input_w * delta_t <= POWER_CAP * DT_MAX) by (nonlinear_arith)
                requires
                    0 <= self.input_w <= POWER_CAP,
                    0 <= delta_t <= DT_MAX,
            ;
            vstd::arithmetic::div_mod::lemma_div_is_ordered(
                self.input_w * delta_t,
                POWER_CAP * DT_MAX,
                SCALE as int,
            );
            vstd::arithmetic::div_mod::lemma_div_pos_is_pos(self.input_w * delta_t, SCALE as int);
        }
        let dq_in: u128 = (self.input_w as u128) * (delta_t as u128) / (SCALE as u128);
        proof {
            assert(dq_in * SCALE_SQ <= (POWER_CAP * DT_MAX / (SCALE as int)) * SCALE_SQ)
                by (nonlinear_arith)
                requires
                    0 <= dq_in <= POWER_CAP * DT_MAX / (SCALE as int),
            ;
            vstd::arithmetic::div_mod::lemma_div_nonincreasing(
                dq_in * SCALE_SQ,
                self.mass * self.specific_heat,
            );
        }
        let d_in: u128 = dq_in * (SCALE_SQ as u128) / ((self.mass as u128) * (self.specific_heat
            as u128));
        let mx: u64 = if self.temp >= self.water.temp {
            self.temp
        } else {
            self.water.temp
        };
        (mx as u128) + d_in <= TEMP_MAX as u128
    }

    fn step(&mut self, delta_t: u64) {
        proof {
            assert(self.heat_transfer_coefficient * self.area <= CONV_CAP * AREA_CAP)
                by (nonlinear_arith)
                requires
                    0 <= self.heat_transfer_coefficient <= CONV_CAP,
                    0 <= self.area <= AREA_CAP,
            ;
            vstd::arithmetic::div_mod::lemma_div_is_ordered(
                self.heat_transfer_coefficient * self.area,
                CONV_CAP * AREA_CAP,
                SCALE as int,
            );
            assert(self.input_w * delta_t <= POWER_CAP * DT_MAX) by (nonlinear_arith)
                requires
                    0 <= self.input_w <= POWER_CAP,
                    0 <= delta_t <= DT_MAX,
            ;
            vstd::arithmetic::div_mod::lemma_div_is_ordered(
                self.input_w * delta_t,
                POWER_CAP * DT_MAX,
                SCALE as int,
            );
        }
        let coeff: u64 = crate::units::scaled_mul(self.heat_transfer_coefficient, self.area);
        let r = exchange_step(
            self.temp,
            self.water,
            coeff,
            self.mass,
            self.specific_heat,
            delta_t,
        );
        let dq_in: u64 = crate::units::scaled_mul(self.input_w, delta_t);
        let d_in: u64 = calculate_dtemp(dq_in, self.mass, self.specific_heat);
        self.temp = r.0 + d_in;
        self.water.temp = r.1;
    }

    fn get_water(&self) -> Water {
        self.water
    }

    fn set_water(&mut self, water: Water) {
        self.water = water;
    }
}

/// The heat-rate coefficient of a well-formed tank is nonnegative.
pub proof fn lemma_tank_coeff_nonneg(t: Tank)
    requires
        t.wf(),
    ensures
        0 <= tank_coeff(t),
{
    vstd::arithmetic::div_mod::lemma_div_pos_is_pos(TWO_PI * t.radius, SCALE as int);
    vstd::arithmetic::mul::lemma_mul_nonnegative(TWO_PI * t.radius / (SCALE as int), t.height as int);
    vstd::arithmetic::div_mod::lemma_div_pos_is_pos(
        (TWO_PI * t.radius / (SCALE as int)) * t.height,
        SCALE as int,
    );
    vstd::arithmetic::mul::lemma_mul_nonnegative(t.conv_coeff as int, tank_area(t));
    vstd::arithmetic::div_mod::lemma_div_pos_is_pos(t.conv_coeff * tank_area(t), SCALE as int);
}

/// The heat-rate coefficient of a well-formed panel is nonnegative.
pub proof fn lemma_panel_coeff_nonneg(p: Panel)
    requires
        p.wf(),
    ensures
        0 <= panel_coeff(p) <= COEFF_CAP,
{
    vstd::arithmetic::mul::lemma_mul_nonnegative(
        p.heat_transfer_coefficient as int,
        p.area as int,
    );
    vstd::arithmetic::div_mod::lemma_div_pos_is_pos(
        p.heat_transfer_coefficient * p.area,
        SCALE as int,
    );
}

/// A pipe step preserves well-formedness: only the two temperatures move,
/// both staying between the two start-of-step temperatures, and the water
/// mass is untouched.
pub proof fn lemma_pipe_step_preserves(p: Pipe, delta_t: u64)
    requires
        pipe_step_ready(p, delta_t),
    ensures
        pipe_stepped(p, delta_t).wf(),
        pipe_stepped(p, delta_t).water.mass == p.water.mass,
        p.water.mass >= 1,
{
    lemma_pipe_coeff_nonneg(p);
    lemma_exchange_in_range(p.temp, p.water, pipe_coeff(p), p.mass, p.specific_heat, delta_t);
    if p.water.mass == 0 {
        assert(p.water.mass * WATER_SPECIFIC_HEAT == 0) by (nonlinear_arith)
            requires
                p.water.mass == 0,
        ;
    }
}

/// A tank step preserves well-formedness: only the two temperatures move,
/// both staying between the two start-of-step temperatures, and the water
/// mass is untouched.
pub proof fn lemma_tank_step_preserves(t: Tank, delta_t: u64)
    requires
        tank_step_ready(t, delta_t),
    ensures
        tank_stepped(t, delta_t).wf(),
        tank_stepped(t, delta_t).water.mass == t.water.mass,
        t.water.mass >= 1,
{
    lemma_tank_coeff_nonneg(t);
    lemma_exchange_in_range(t.temp, t.water, tank_coeff(t), t.mass, t.specific_heat, delta_t);
    if t.water.mass == 0 {
        assert(t.water.mass * WATER_SPECIFIC_HEAT == 0) by (nonlinear_arith)
            requires
                t.water.mass == 0,
        ;
    }
}

/// A panel step preserves well-formedness: the water temperature stays
/// between the two start-of-step temperatures, the panel temperature
/// additionally rises by the external contribution while staying under
/// the cap, and the water mass is untouched.
pub proof fn lemma_panel_step_preserves(p: Panel, delta_t: u64)
    requires
        panel_step_ready(p, delta_t),
    ensures
        panel_stepped(p, delta_t).wf(),
        panel_stepped(p, delta_t).water.mass == p.water.mass,
        p.water.mass >= 1,
{
    lemma_panel_coeff_nonneg(p);
    lemma_exchange_in_range(p.temp, p.water, panel_coeff(p), p.mass, p.specific_heat, delta_t);
    vstd::arithmetic::mul::lemma_mul_nonnegative(p.input_w as int, delta_t as int);
    vstd::arithmetic::div_mod::lemma_div_pos_is_pos(p.input_w * delta_t, SCALE as int);
    vstd::arithmetic::div_mod::lemma_div_pos_is_pos(
        panel_input_dq(p, delta_t) * SCALE_SQ,
        p.mass * p.specific_heat,
    );
    if p.water.mass == 0 {
        assert(p.water.mass * WATER_SPECIFIC_HEAT == 0) by (nonlinear_arith)
            requires
                p.water.mass == 0,
        ;
    }
}

/// Energy accounting of a panel step without external input: the heat
/// that leaves the water and the heat that enters the panel are one and
/// the same exchanged quantum, applied with opposite signs through the
/// two thermal masses.
pub proof fn lemma_panel_energy_balance(p: Panel, delta_t: u64)
    requires
        panel_step_ready(p, delta_t),
        p.input_w == 0,
    ensures
        ({
            let q = panel_stepped(p, delta_t);
            let dq = exchange_dq(panel_coeff(p), temp_gap(p.temp, p.water), delta_t);
            &&& p.water.temp >= p.temp ==> {
                &&& q.temp == p.temp + spec_dtemp(dq, p.mass, p.specific_heat)
                &&& q.water.temp == p.water.temp - spec_dtemp(
                    dq,
                    p.water.mass,
                    WATER_SPECIFIC_HEAT,
                )
            }
            &&& p.water.temp < p.temp ==> {
                &&& q.temp == p.temp - spec_dtemp(dq, p.mass, p.specific_heat)
                &&& q.water.temp == p.water.temp + spec_dtemp(
                    dq,
                    p.water.mass,
                    WATER_SPECIFIC_HEAT,
                )
            }
        }),
{
    lemma_panel_coeff_nonneg(p);
    lemma_exchange_in_range(p.temp, p.water, panel_coeff(p), p.mass, p.specific_heat, delta_t);
    assert(panel_input_dq(p, delta_t) == 0) by {
        vstd::arithmetic::div_mod::lemma_div_of0(SCALE as int);
    };
    assert(panel_input_dtemp(p, delta_t) == 0) by {
        vstd::arithmetic::div_mod::lemma_div_of0(p.mass * p.specific_heat);
    };
}

} // verus!

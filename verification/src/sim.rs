//! The fixed-step simulation driver.
//!
//! Each tick advances every entity's temperature from its start-of-tick
//! state — the order among entities does not matter for that phase — and
//! then routes a fixed mass quantum of water around the directed cycle
//! tank, outgoing pipe, panel, incoming pipe, back to the tank, strictly
//! in that order, since each transfer's source is the previous transfer's
//! destination.  The tank's convective coefficient depends on
//! transcendental correlations of the water state, so the caller
//! evaluates it each tick and hands it in.

use vstd::prelude::*;

use crate::entities::{
    panel_step_ready, panel_stepped, pipe_step_ready, pipe_stepped, tank_step_ready, tank_stepped,
    Entity, Panel, Pipe, SimError, Tank,
};
use crate::units::{
    CONV_CAP, DT_MAX, MASS_CAP, PUMP_CAP, SCALE, TIME_CAP, VISCOSITY_MIN_TEMP,
};
use crate::water::Water;

verus! {

broadcast use crate::units::lemma_u64_mul_fits_u128;

/// The whole loop at one instant: the four entities, the fixed run
/// parameters, and the tick counter.
#[derive(Clone, Copy, Debug)]
pub struct Simulation {
    /// The storage tank.
    pub tank: Tank,
    /// The pipe leading from the tank to the panel.
    pub pipe_out: Pipe,
    /// The heated panel.
    pub panel: Panel,
    /// The pipe leading from the panel back to the tank.
    pub pipe_in: Pipe,
    /// Length of one time step, scaled seconds.
    pub delta_t: u64,
    /// Mass the pump moves per second, scaled kg/s.
    pub pumprate: u64,
    /// Total simulated time span, scaled seconds.
    pub final_t: u64,
    /// Interval between status reports, scaled seconds.
    pub print_every_t: u64,
    /// Index of the next tick to run.
    pub step_index: u64,
}

/// The mass quantum moved between adjacent entities in one tick: pump
/// rate times step length.
pub open spec fn quantum(s: Simulation) -> int {
    s.pumprate * s.delta_t / (SCALE as int)
}

/// The tank with the convective coefficient of the current tick set.
pub open spec fn tank_with_conv(s: Simulation, h: u64) -> Tank {
    Tank { conv_coeff: h, ..s.tank }
}

/// Whether the tick's numeric domain is sound: the tank's water is above
/// the viscosity limit and the supplied convective coefficient is in
/// range.  When this fails the tick refuses to run.
pub open spec fn spec_domain_ok(s: Simulation, h: u64) -> bool {
    &&& s.tank.water.temp > VISCOSITY_MIN_TEMP
    &&& h <= CONV_CAP
}

/// The state after one tick: every entity stepped from its start-of-tick
/// state, then the quantum routed tank -> outgoing pipe -> panel ->
/// incoming pipe -> tank, and the tick counter advanced.
pub open spec fn spec_tick(s: Simulation, h: u64) -> Simulation {
    let q = quantum(s) as u64;
    let t1 = tank_stepped(tank_with_conv(s, h), s.delta_t);
    let po1 = pipe_stepped(s.pipe_out, s.delta_t);
    let pa1 = panel_stepped(s.panel, s.delta_t);
    let pi1 = pipe_stepped(s.pipe_in, s.delta_t);
    let t2 = Tank { water: t1.water.drained(q), ..t1 };
    let po2 = Pipe { water: Water::mixed(po1.water, t1.water.taken(q)), ..po1 };
    let po3 = Pipe { water: po2.water.drained(q), ..po2 };
    let pa2 = Panel { water: Water::mixed(pa1.water, po2.water.taken(q)), ..pa1 };
    let pa3 = Panel { water: pa2.water.drained(q), ..pa2 };
    let pi2 = Pipe { water: Water::mixed(pi1.water, pa2.water.taken(q)), ..pi1 };
    let pi3 = Pipe { water: pi2.water.drained(q), ..pi2 };
    let t3 = Tank { water: Water::mixed(t2.water, pi2.water.taken(q)), ..t2 };
    Simulation {
        tank: t3,
        pipe_out: po3,
        panel: pa3,
        pipe_in: pi3,
        step_index: (s.step_index + 1) as u64,
        ..s
    }
}

/// Total water mass held by the four entities together.
pub open spec fn total_water_mass(s: Simulation) -> int {
    s.tank.water.mass + s.pipe_out.water.mass + s.panel.water.mass + s.pipe_in.water.mass
}

impl Simulation {
    /// Well-formedness: the four entities are well formed and the run
    /// parameters are positive where they must be and under the caps.
    pub open spec fn wf(self) -> bool {
        &&& self.tank.wf()
        &&& self.pipe_out.wf()
        &&& self.panel.wf()
        &&& self.pipe_in.wf()
        &&& 1 <= self.delta_t <= DT_MAX
        &&& self.pumprate <= PUMP_CAP
        &&& self.final_t <= TIME_CAP
        &&& 1 <= self.print_every_t <= TIME_CAP
    }

    /// Readiness of one tick: a well-formed state whose counter can still
    /// advance and, when the numeric domain is sound, every entity ready
    /// for its step and every water body with room for the incoming
    /// quantum.
    pub open spec fn tick_ready(self, h: u64) -> bool {
        &&& self.wf()
        &&& self.step_index < u64::MAX
        &&& spec_domain_ok(self, h) ==> {
            &&& tank_step_ready(tank_with_conv(self, h), self.delta_t)
            &&& pipe_step_ready(self.pipe_out, self.delta_t)
            &&& panel_step_ready(self.panel, self.delta_t)
            &&& pipe_step_ready(self.pipe_in, self.delta_t)
            &&& self.tank.water.mass + quantum(self) <= MASS_CAP
            &&& self.pipe_out.water.mass + quantum(self) <= MASS_CAP
            &&& self.panel.water.mass + quantum(self) <= MASS_CAP
            &&& self.pipe_in.water.mass + quantum(self) <= MASS_CAP
        }
    }

    /// Checks well-formedness of the whole run state.
    pub fn is_wf(&self) -> (b: bool)
        ensures
            b == self.wf(),
    {
        self.tank.is_wf() && self.pipe_out.is_wf() && self.panel.is_wf() && self.pipe_in.is_wf()
            && 1 <= self.delta_t && self.delta_t <= DT_MAX && self.pumprate <= PUMP_CAP
            && self.final_t <= TIME_CAP && 1 <= self.print_every_t && self.print_every_t
            <= TIME_CAP
    }

    /// Checks whether one tick may run, so that an unverified caller can
    /// establish `tick`'s precondition at run time.
    pub fn can_tick(&self, h: u64) -> (b: bool)
        ensures
            b == self.tick_ready(h),
    {
        if !self.is_wf() {
            return false;
        }
        if !(self.step_index < u64::MAX) {
            return false;
        }
        if self.tank.water.temp <= VISCOSITY_MIN_TEMP || h > CONV_CAP {
            return true;
        }
        let tank_set = Tank { conv_coeff: h, ..self.tank };
        if !tank_set.can_step(self.delta_t) {
            return false;
        }
        if !self.pipe_out.can_step(self.delta_t) {
            return false;
        }
        if !self.panel.can_step(self.delta_t) {
            return false;
        }
        if !self.pipe_in.can_step(self.delta_t) {
            return false;
        }
        proof {
            assert(self.pumprate * self.delta_t <= PUMP_CAP * DT_MAX) by (nonlinear_arith)
                requires
                    0 <= self.pumprate <= PUMP_CAP,
                    0 <= self.delta_t <= DT_MAX,
            ;
            vstd::arithmetic::div_mod::lemma_div_is_ordered(
                self.pumprate * self.delta_t,
                PUMP_CAP * DT_MAX,
                SCALE as int,
            );
        }
        let q: u128 = (self.pumprate as u128) * (self.delta_t as u128) / (SCALE as u128);
        (self.tank.water.mass as u128) + q <= MASS_CAP as u128 && (self.pipe_out.water.mass
            as u128) + q <= MASS_CAP as u128 && (self.panel.water.mass as u128) + q <= MASS_CAP
            as u128 && (self.pipe_in.water.mass as u128) + q <= MASS_CAP as u128
    }

    /// Assembles a run from constructed entities and run parameters; the
    /// caller owes positive, capped parameters, as the bounds state.
    pub fn new(
        tank: Tank,
        pipe_out: Pipe,
        panel: Panel,
        pipe_in: Pipe,
        delta_t: u64,
        pumprate: u64,
        final_t: u64,
        print_every_t: u64,
    ) -> (s: Simulation)
        requires
            tank.wf(),
            pipe_out.wf(),
            panel.wf(),
            pipe_in.wf(),
            1 <= delta_t <= DT_MAX,
            pumprate <= PUMP_CAP,
            final_t <= TIME_CAP,
            1 <= print_every_t <= TIME_CAP,
        ensures
            s == (Simulation {
                tank,
                pipe_out,
                panel,
                pipe_in,
                delta_t,
                pumprate,
                final_t,
                print_every_t,
                step_index: 0,
            }),
            s.wf(),
    {
        Simulation {
            tank,
            pipe_out,
            panel,
            pipe_in,
            delta_t,
            pumprate,
            final_t,
            print_every_t,
            step_index: 0,
        }
    }

    /// Whether the run is over: the next tick would start past the final
    /// time.  The run state machine has only this terminal state and the
    /// running one.
    pub fn finished(&self) -> (b: bool)
        ensures
            b == (self.step_index * self.delta_t > self.final_t),
    {
        let t: u128 = (self.step_index as u128) * (self.delta_t as u128);
        t > self.final_t as u128
    }

    /// Whether the tick about to run falls on a reporting instant: the
    /// current simulated time is a whole multiple of the reporting
    /// interval.
    pub fn should_report(&self) -> (b: bool)
        requires
            self.print_every_t >= 1,
        ensures
            b == ((self.step_index * self.delta_t) % (self.print_every_t as int) == 0),
    {
        let t: u128 = (self.step_index as u128) * (self.delta_t as u128);
        t % (self.print_every_t as u128) == 0
    }

    /// Runs one tick: refuses with the offending tick identified when the
    /// tank's correlation domain is unsound, leaving the state untouched;
    /// otherwise advances every entity and routes the water quantum
    /// around the cycle, leaving exactly the state `spec_tick` describes.
    pub fn tick(&mut self, h: u64) -> (r: Result<(), SimError>)
        requires
            old(self).tick_ready(h),
        ensures
            r is Ok <==> spec_domain_ok(*old(self), h),
            r is Err ==> r->Err_0 == (SimError::ViscosityDomain { tick: old(self).step_index })
                && *final(self) == *old(self),
            r is Ok ==> *final(self) == spec_tick(*old(self), h) && final(self).wf(),
    {
        if self.tank.water.temp <= VISCOSITY_MIN_TEMP || h > CONV_CAP {
            return Err(SimError::ViscosityDomain { tick: self.step_index });
        }
        self.tank.conv_coeff = h;
        let delta_t = self.delta_t;
        proof {
            assert(self.tank == tank_with_conv(*old(self), h));
        }
        self.tank.step(delta_t);
        self.pipe_out.step(delta_t);
        self.panel.step(delta_t);
        self.pipe_in.step(delta_t);
        proof {
            crate::entities::lemma_tank_step_preserves(tank_with_conv(*old(self), h), delta_t);
            crate::entities::lemma_pipe_step_preserves(old(self).pipe_out, delta_t);
            crate::entities::lemma_panel_step_preserves(old(self).panel, delta_t);
            crate::entities::lemma_pipe_step_preserves(old(self).pipe_in, delta_t);
            assert(self.pumprate * delta_t <= PUMP_CAP * DT_MAX) by (nonlinear_arith)
                requires
                    0 <= self.pumprate <= PUMP_CAP,
                    0 <= delta_t <= DT_MAX,
            ;
            vstd::arithmetic::div_mod::lemma_div_is_ordered(
                self.pumprate * delta_t,
                PUMP_CAP * DT_MAX,
                SCALE as int,
            );
            vstd::arithmetic::div_mod::lemma_div_pos_is_pos(
                self.pumprate * delta_t,
                SCALE as int,
            );
        }
        let q = crate::units::scaled_mul(self.pumprate, delta_t);
        let w1 = self.tank.take_water(q);
        proof {
            crate::water::lemma_mixed_wf(self.pipe_out.water, w1);
        }
        self.pipe_out.add_water(&w1);
        let w2 = self.pipe_out.take_water(q);
        proof {
            crate::water::lemma_mixed_wf(self.panel.water, w2);
        }
        self.panel.add_water(&w2);
        let w3 = self.panel.take_water(q);
        proof {
            crate::water::lemma_mixed_wf(self.pipe_in.water, w3);
        }
        self.pipe_in.add_water(&w3);
        let w4 = self.pipe_in.take_water(q);
        proof {
            crate::water::lemma_mixed_wf(self.tank.water, w4);
        }
        self.tank.add_water(&w4);
        self.step_index = self.step_index + 1;
        Ok(())
    }
}

/// Mass conservation of one tick: stepping moves no mass at all, and each
/// of the four transfers adds to its destination exactly the quantum it
/// removed from its source, also when a transfer saturates; so the total
/// water mass of the loop never changes.
pub proof fn lemma_tick_conserves_mass(s: Simulation, h: u64)
    requires
        s.tick_ready(h),
        spec_domain_ok(s, h),
    ensures
        total_water_mass(spec_tick(s, h)) == total_water_mass(s),
{
    crate::entities::lemma_tank_step_preserves(tank_with_conv(s, h), s.delta_t);
    crate::entities::lemma_pipe_step_preserves(s.pipe_out, s.delta_t);
    crate::entities::lemma_panel_step_preserves(s.panel, s.delta_t);
    crate::entities::lemma_pipe_step_preserves(s.pipe_in, s.delta_t);
    let q = quantum(s) as u64;
    let t1 = tank_stepped(tank_with_conv(s, h), s.delta_t);
    let po1 = pipe_stepped(s.pipe_out, s.delta_t);
    let pa1 = panel_stepped(s.panel, s.delta_t);
    let pi1 = pipe_stepped(s.pipe_in, s.delta_t);
    let po2 = Pipe { water: Water::mixed(po1.water, t1.water.taken(q)), ..po1 };
    let pa2 = Panel { water: Water::mixed(pa1.water, po2.water.taken(q)), ..pa1 };
    let pi2 = Pipe { water: Water::mixed(pi1.water, pa2.water.taken(q)), ..pi1 };
    crate::water::lemma_take_then_add_conserves_mass(t1.water, po1.water, q);
    crate::water::lemma_take_then_add_conserves_mass(po2.water, pa1.water, q);
    crate::water::lemma_take_then_add_conserves_mass(pa2.water, pi1.water, q);
    crate::water::lemma_take_then_add_conserves_mass(pi2.water, t1.water.drained(q), q);
}

} // verus!

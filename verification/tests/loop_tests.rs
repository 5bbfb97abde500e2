//! Behavioural tests of the thermodynamic loop, exercised through the
//! public surface with concrete scaled values (one unit is 10^-9 of the
//! SI unit, so 1 kg is 1_000_000_000 and 293 K is 293_000_000_000).

use simulator::entities::{calculate_dtemp, Entity, Panel, Pipe, SimError, Tank};
use simulator::sim::Simulation;
use simulator::units::{CONV_CAP, SCALE};
use simulator::water::{mix_water, Water};

const KG: u64 = SCALE;
const K: u64 = SCALE;

/// ln(0.07 / 0.05), scaled.
const LN_RATIO_7_5: u64 = 336_472_236;

fn test_pipe(temp: u64, water: Water) -> Pipe {
    Pipe::new(
        temp,
        5 * KG,
        50_000_000,      // 0.05 m
        70_000_000,      // 0.07 m
        10 * SCALE,      // 10 m
        452 * SCALE,     // steel specific heat
        35 * SCALE,      // steel conductivity
        200 * SCALE,     // submerged external convection
        LN_RATIO_7_5,
        water,
    )
    .expect("pipe geometry is valid")
}

fn test_tank(temp: u64, water: Water) -> Tank {
    Tank::new(40 * KG, 3 * SCALE, 1 * SCALE, 466 * SCALE, temp, water).expect("tank geometry is valid")
}

fn test_panel(temp: u64, input_w: u64, water: Water) -> Panel {
    Panel::new(250 * KG, 10 * SCALE, temp, input_w, 466 * SCALE, 30 * SCALE, water)
        .expect("panel geometry is valid")
}

#[test]
fn mixing_correctness() {
    // {mass: 1, temp: 300} into {mass: 1, temp: 280} gives {mass: 2, temp: 290}.
    let a = Water { temp: 280 * K, mass: 1 * KG };
    let b = Water { temp: 300 * K, mass: 1 * KG };
    let r = mix_water(a, b);
    assert_eq!(r.mass, 2 * KG);
    assert_eq!(r.temp, 290 * K);
}

#[test]
fn mixing_through_an_entity() {
    let mut pipe = test_pipe(293 * K, Water { temp: 280 * K, mass: 1 * KG });
    pipe.add_water(&Water { temp: 300 * K, mass: 1 * KG });
    let w = pipe.get_water();
    assert_eq!(w.mass, 2 * KG);
    assert_eq!(w.temp, 290 * K);
}

#[test]
fn mixing_is_mass_weighted() {
    // 3 kg at 280 K with 1 kg at 300 K: (3*280 + 1*300) / 4 = 285 K.
    let r = mix_water(
        Water { temp: 280 * K, mass: 3 * KG },
        Water { temp: 300 * K, mass: 1 * KG },
    );
    assert_eq!(r.mass, 4 * KG);
    assert_eq!(r.temp, 285 * K);
}

#[test]
fn saturating_take() {
    // take_water(10) on {mass: 4, temp: 300} returns {mass: 4, temp: 300}
    // and leaves the source at {mass: 0, temp: 300}.
    let mut pipe = test_pipe(293 * K, Water { temp: 300 * K, mass: 4 * KG });
    let taken = pipe.take_water(10 * KG);
    assert_eq!(taken.mass, 4 * KG);
    assert_eq!(taken.temp, 300 * K);
    let left = pipe.get_water();
    assert_eq!(left.mass, 0);
    assert_eq!(left.temp, 300 * K);
}

#[test]
fn unsaturated_take_removes_exactly_the_request() {
    let mut pipe = test_pipe(293 * K, Water { temp: 300 * K, mass: 4 * KG });
    let taken = pipe.take_water(1 * KG);
    assert_eq!(taken.mass, 1 * KG);
    assert_eq!(taken.temp, 300 * K);
    assert_eq!(pipe.get_water().mass, 3 * KG);
}

#[test]
fn take_then_add_conserves_mass() {
    let mut tank = test_tank(299 * K, Water { temp: 293 * K, mass: 300 * KG });
    let mut pipe = test_pipe(293 * K, Water { temp: 293 * K, mass: 4 * KG });
    let before = tank.get_water().mass + pipe.get_water().mass;
    let taken = tank.take_water(2 * KG);
    pipe.add_water(&taken);
    let after = tank.get_water().mass + pipe.get_water().mass;
    assert_eq!(before, after);
}

#[test]
fn clamped_take_then_add_still_conserves_mass() {
    let mut tank = test_tank(299 * K, Water { temp: 293 * K, mass: 3 * KG });
    let mut pipe = test_pipe(293 * K, Water { temp: 293 * K, mass: 4 * KG });
    let taken = tank.take_water(10 * KG);
    assert_eq!(taken.mass, 3 * KG);
    pipe.add_water(&taken);
    assert_eq!(tank.get_water().mass + pipe.get_water().mass, 7 * KG);
}

#[test]
fn calculate_dtemp_exact() {
    // 1 J into 2 kg of a 1000 J/(kg K) material: 0.0005 K.
    assert_eq!(calculate_dtemp(SCALE, 2 * KG, 1000 * SCALE), 500_000);
}

#[test]
fn invalid_pipe_geometry_is_rejected() {
    let w = Water { temp: 293 * K, mass: 4 * KG };
    // Exterior radius not above the interior one.
    let r = Pipe::new(
        293 * K,
        5 * KG,
        70_000_000,
        70_000_000,
        10 * SCALE,
        452 * SCALE,
        35 * SCALE,
        200 * SCALE,
        LN_RATIO_7_5,
        w,
    );
    assert!(matches!(r, Err(SimError::InvalidGeometry)));
    // Zero length.
    let r = Pipe::new(
        293 * K,
        5 * KG,
        50_000_000,
        70_000_000,
        0,
        452 * SCALE,
        35 * SCALE,
        200 * SCALE,
        LN_RATIO_7_5,
        w,
    );
    assert!(matches!(r, Err(SimError::InvalidGeometry)));
}

#[test]
fn invalid_tank_geometry_is_rejected() {
    let w = Water { temp: 293 * K, mass: 300 * KG };
    assert!(matches!(
        Tank::new(40 * KG, 0, 1 * SCALE, 466 * SCALE, 299 * K, w),
        Err(SimError::InvalidGeometry)
    ));
    assert!(matches!(
        Tank::new(0, 3 * SCALE, 1 * SCALE, 466 * SCALE, 299 * K, w),
        Err(SimError::InvalidGeometry)
    ));
}

#[test]
fn invalid_panel_geometry_is_rejected() {
    let w = Water { temp: 293 * K, mass: 4 * KG };
    assert!(matches!(
        Panel::new(250 * KG, 0, 293 * K, 9900 * SCALE, 466 * SCALE, 30 * SCALE, w),
        Err(SimError::InvalidGeometry)
    ));
    assert!(matches!(
        Panel::new(250 * KG, 10 * SCALE, 293 * K, 9900 * SCALE, 0, 30 * SCALE, w),
        Err(SimError::InvalidGeometry)
    ));
}

#[test]
fn construction_keeps_the_fields() {
    let w = Water { temp: 293 * K, mass: 4 * KG };
    let p = test_pipe(295 * K, w);
    assert_eq!(p.temp, 295 * K);
    assert_eq!(p.mass, 5 * KG);
    assert_eq!(p.rad_int, 50_000_000);
    assert_eq!(p.rad_ext, 70_000_000);
    assert_eq!(p.water, w);
    let t = test_tank(299 * K, w);
    assert_eq!(t.height, 3 * SCALE);
    assert_eq!(t.radius, 1 * SCALE);
    assert_eq!(t.conv_coeff, 0);
    let pn = test_panel(293 * K, 9900 * SCALE, w);
    assert_eq!(pn.input_w, 9900 * SCALE);
    assert_eq!(pn.heat_transfer_coefficient, 30 * SCALE);
}

#[test]
fn pipe_step_exact_movement() {
    // Water at 300 K in a 293 K pipe, one millisecond step: the wall
    // rises and the water falls by the same exchanged heat over the
    // respective thermal masses.
    let mut pipe = test_pipe(293 * K, Water { temp: 300 * K, mass: 4 * KG });
    let dt: u64 = 1_000_000;
    assert!(pipe.can_step(dt));
    pipe.step(dt);
    assert_eq!(pipe.temp, 293_002_104_580);
    assert_eq!(pipe.water.temp, 299_999_715_618);
    assert_eq!(pipe.water.mass, 4 * KG);
}

#[test]
fn pipe_equilibrium_gap_shrinks_every_step() {
    let mut pipe = test_pipe(293 * K, Water { temp: 300 * K, mass: 4 * KG });
    let dt: u64 = 1_000_000;
    let mut gap = pipe.water.temp - pipe.temp;
    for _ in 0..200 {
        assert!(pipe.can_step(dt));
        pipe.step(dt);
        assert!(pipe.water.temp >= pipe.temp);
        let new_gap = pipe.water.temp - pipe.temp;
        assert!(new_gap < gap);
        gap = new_gap;
    }
}

#[test]
fn panel_step_exact_energy_balance() {
    // With no external input the heat leaving the water equals the heat
    // entering the panel: one dq of 2.1 J through both thermal masses.
    let mut panel = test_panel(293 * K, 0, Water { temp: 300 * K, mass: 4 * KG });
    let dt: u64 = 1_000_000;
    assert!(panel.can_step(dt));
    panel.step(dt);
    assert_eq!(panel.temp, 293_000_018_025);
    assert_eq!(panel.water.temp, 299_999_874_441);
    assert_eq!(panel.water.mass, 4 * KG);
}

#[test]
fn panel_input_heats_the_panel_only() {
    // Panel and water at the same temperature: no exchange, so the
    // external source raises the panel and leaves the water alone.
    let mut panel = test_panel(293 * K, 9900 * SCALE, Water { temp: 293 * K, mass: 4 * KG });
    let dt: u64 = 1_000_000;
    assert!(panel.can_step(dt));
    panel.step(dt);
    assert!(panel.temp > 293 * K);
    assert_eq!(panel.water.temp, 293 * K);
}

#[test]
fn tank_step_exact_movement() {
    // A 299 K tank over 293 K water with a convective coefficient of
    // 4 W/(m^2 K): the tank cools, the water warms.
    let mut tank = test_tank(299 * K, Water { temp: 293 * K, mass: 300 * KG });
    tank.conv_coeff = 4 * SCALE;
    let dt: u64 = 1_000_000;
    assert!(tank.can_step(dt));
    tank.step(dt);
    assert_eq!(tank.temp, 298_999_975_731);
    assert_eq!(tank.water.temp, 293_000_000_360);
    assert_eq!(tank.water.mass, 300 * KG);
}

fn scenario_simulation(delta_t: u64, final_t: u64, print_every_t: u64) -> Simulation {
    let pipewater = Water { temp: 293 * K, mass: 4 * KG };
    let tankwater = Water { temp: 293 * K, mass: 300 * KG };
    Simulation::new(
        test_tank(299 * K, tankwater),
        test_pipe(293 * K, pipewater),
        test_panel(293 * K, 9900 * SCALE, pipewater),
        test_pipe(293 * K, pipewater),
        delta_t,
        5 * SCALE,
        final_t,
        print_every_t,
    )
}

/// The natural-convection correlation of the tank, evaluated in floating
/// point as the simulator's caller does: viscosity from the water
/// temperature, Rayleigh and Prandtl numbers, the vertical-plate Nusselt
/// correlation, and from it the convective coefficient in W/(m^2 K).
fn tank_convection(tank: &Tank) -> f64 {
    let diffusivity = 1.4e-7;
    let conductivity = 0.5918;
    let t_wall = tank.temp as f64 / 1e9;
    let t_water = tank.water.temp as f64 / 1e9;
    let height = tank.height as f64 / 1e9;
    let viscosity = 0.02939 * (507.88 / (t_water - 149.3)).exp();
    let rayleigh = 9.81 * (t_wall - t_water).abs() * height.powi(3) / (viscosity * diffusivity);
    let prandtl = viscosity / diffusivity;
    let nusselt = 0.825
        + 0.387 * rayleigh.powf(1.0 / 6.0)
            / (1.0 + (0.492 / prandtl).powf(9.0 / 16.0)).powf(8.0 / 27.0);
    nusselt * conductivity / height
}

#[test]
fn end_to_end_scenario() {
    // The reference configuration: all entities and water at 293 K, the
    // tank at 299 K, the panel fed 9900 W, pump rate 5 kg/s.  After a
    // stretch of ticks the tank must have cooled toward the cooler water
    // and the panel must have warmed under its net heat input; the total
    // water mass is untouched.
    let dt: u64 = 1_000_000;  // 1 ms
    let mut sim = scenario_simulation(dt, 2 * SCALE, 2 * SCALE);
    let mass_before =
        sim.tank.water.mass + sim.pipe_out.water.mass + sim.panel.water.mass + sim.pipe_in.water.mass;
    while !sim.finished() {
        let h = tank_convection(&sim.tank);
        assert!(h.is_finite() && h >= 0.0);
        let h_scaled = (h * 1e9) as u64;
        assert!(sim.can_tick(h_scaled));
        assert!(sim.tick(h_scaled).is_ok());
    }
    assert!(sim.tank.temp < 299 * K);
    assert!(sim.panel.temp > 293 * K);
    let mass_after =
        sim.tank.water.mass + sim.pipe_out.water.mass + sim.panel.water.mass + sim.pipe_in.water.mass;
    assert_eq!(mass_before, mass_after);
    assert_eq!(sim.tank.water.mass, 300 * KG);
    assert_eq!(sim.pipe_out.water.mass, 4 * KG);
    assert_eq!(sim.panel.water.mass, 4 * KG);
    assert_eq!(sim.pipe_in.water.mass, 4 * KG);
}

#[test]
fn viscosity_domain_is_refused() {
    let dt: u64 = 1_000_000;
    let mut sim = scenario_simulation(dt, 2 * SCALE, 2 * SCALE);
    sim.tank.water.temp = 149 * K;  // at 149 K the correlation has no value
    let before = sim;
    assert!(sim.can_tick(4 * SCALE));
    let r = sim.tick(4 * SCALE);
    match r {
        Err(SimError::ViscosityDomain { tick }) => assert_eq!(tick, 0),
        _ => panic!("a sub-domain water temperature must be refused"),
    }
    // The refused tick leaves the state untouched.
    assert_eq!(sim.tank.water.temp, before.tank.water.temp);
    assert_eq!(sim.step_index, before.step_index);
}

#[test]
fn out_of_range_convection_is_refused() {
    let dt: u64 = 1_000_000;
    let mut sim = scenario_simulation(dt, 2 * SCALE, 2 * SCALE);
    assert!(sim.can_tick(CONV_CAP + 1));
    let r = sim.tick(CONV_CAP + 1);
    assert!(matches!(r, Err(SimError::ViscosityDomain { tick: 0 })));
}

#[test]
fn finished_and_reporting_schedule() {
    let dt: u64 = SCALE;  // 1 s steps
    let mut sim = scenario_simulation(dt, 10 * SCALE, 2 * SCALE);
    assert!(!sim.finished());
    assert!(sim.should_report());  // t = 0 is a reporting instant
    sim.step_index = 3;
    assert!(!sim.finished());
    assert!(!sim.should_report());  // 3 s is not a multiple of 2 s
    sim.step_index = 4;
    assert!(sim.should_report());
    sim.step_index = 10;
    assert!(!sim.finished());  // 10 s is the last tick of a 10 s run
    sim.step_index = 11;
    assert!(sim.finished());
}

#[test]
fn mixing_into_an_emptied_entity() {
    // An entity drained to zero mass takes on the incoming water whole.
    let mut pipe = test_pipe(293 * K, Water { temp: 300 * K, mass: 4 * KG });
    let _ = pipe.take_water(4 * KG);
    assert_eq!(pipe.get_water().mass, 0);
    pipe.add_water(&Water { temp: 280 * K, mass: 2 * KG });
    let w = pipe.get_water();
    assert_eq!(w.mass, 2 * KG);
    assert_eq!(w.temp, 280 * K);
}

#[test]
fn taking_nothing_changes_nothing() {
    let mut pipe = test_pipe(293 * K, Water { temp: 300 * K, mass: 4 * KG });
    let taken = pipe.take_water(0);
    assert_eq!(taken.mass, 0);
    assert_eq!(taken.temp, 300 * K);
    assert_eq!(pipe.get_water(), Water { temp: 300 * K, mass: 4 * KG });
}

#[test]
fn a_stopped_pump_moves_no_water() {
    let dt: u64 = 1_000_000;
    let mut sim = scenario_simulation(dt, 2 * SCALE, 2 * SCALE);
    sim.pumprate = 0;
    let h = tank_convection(&sim.tank);
    let h_scaled = (h * 1e9) as u64;
    assert!(sim.can_tick(h_scaled));
    assert!(sim.tick(h_scaled).is_ok());
    assert_eq!(sim.tank.water.mass, 300 * KG);
    assert_eq!(sim.pipe_out.water.mass, 4 * KG);
    assert_eq!(sim.panel.water.mass, 4 * KG);
    assert_eq!(sim.pipe_in.water.mass, 4 * KG);
}

#[test]
fn quantum_of_water_circulates() {
    // One tick moves pumprate * delta_t between neighbours; with equal
    // takes and adds each entity's mass is unchanged, while temperatures
    // mix along the cycle.
    let dt: u64 = 1_000_000;
    let mut sim = scenario_simulation(dt, 2 * SCALE, 2 * SCALE);
    let h = tank_convection(&sim.tank);
    let h_scaled = (h * 1e9) as u64;
    assert!(sim.can_tick(h_scaled));
    assert!(sim.tick(h_scaled).is_ok());
    assert_eq!(sim.step_index, 1);
    assert_eq!(sim.tank.water.mass, 300 * KG);
    assert_eq!(sim.pipe_out.water.mass, 4 * KG);
    // The outgoing pipe received 0.005 kg of 293 K tank water; the tank
    // water had just warmed a little, so the pipe water temperature can
    // only have moved up.
    assert!(sim.pipe_out.water.temp >= 293 * K);
}

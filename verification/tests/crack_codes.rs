use icy_dwarf::crack::{crack_step, CrackEvents, CrackUpdate};

fn quiet() -> CrackEvents {
    CrackEvents {
        thermal_mismatch: false,
        hydration_dehydration: false,
        pore_water_expansion: false,
        dissolution_precipitation: false,
        cooling_intensity_reached: false,
        heating_intensity_reached: false,
        hydration_stress_exceeds: false,
        hydration_stress_positive: false,
        hydration_stress_within: false,
        pore_pressure_exceeds: false,
        crack_widened: false,
        crack_shrunk: false,
        crack_filled: false,
        rock_lacking: false,
    }
}

fn update(code: i32, reset_hydration_stress: bool, reset_pore_pressure: bool) -> CrackUpdate {
    CrackUpdate { code, reset_hydration_stress, reset_pore_pressure }
}

#[test]
fn thermal_cracks_open_by_cooling_or_heating() {
    let mut ev = quiet();
    ev.thermal_mismatch = true;
    ev.cooling_intensity_reached = true;
    assert_eq!(crack_step(0, &ev), update(10, false, false));
    ev.cooling_intensity_reached = false;
    ev.heating_intensity_reached = true;
    assert_eq!(crack_step(0, &ev), update(20, false, false));
    // Not modelled: nothing opens.
    ev.thermal_mismatch = false;
    assert_eq!(crack_step(0, &ev), update(0, false, false));
}

#[test]
fn hydration_stress_opens_and_closes_cracks() {
    let mut ev = quiet();
    ev.hydration_dehydration = true;
    ev.hydration_stress_exceeds = true;
    ev.hydration_stress_positive = true;
    assert_eq!(crack_step(0, &ev), update(30, true, false));
    ev.hydration_stress_positive = false;
    assert_eq!(crack_step(10, &ev), update(40, true, false));
    // A compressive stress below the threshold closes the crack.
    ev.hydration_stress_exceeds = false;
    ev.hydration_stress_positive = true;
    ev.hydration_stress_within = true;
    assert_eq!(crack_step(20, &ev), update(-20, false, false));
}

#[test]
fn pore_water_cracks_release_pressure() {
    let mut ev = quiet();
    ev.pore_water_expansion = true;
    ev.pore_pressure_exceeds = true;
    assert_eq!(crack_step(0, &ev), update(50, false, true));
    // An existing pore water crack keeps releasing the pressure.
    ev.pore_pressure_exceeds = false;
    assert_eq!(crack_step(51, &ev), update(51, false, true));
    assert_eq!(crack_step(30, &ev), update(30, false, false));
}

#[test]
fn dissolution_widens_and_precipitation_shrinks_or_fills() {
    let mut ev = quiet();
    ev.dissolution_precipitation = true;
    ev.crack_widened = true;
    assert_eq!(crack_step(30, &ev).code, 31);
    assert_eq!(crack_step(32, &ev).code, 31);
    assert_eq!(crack_step(0, &ev).code, 0);
    ev.crack_widened = false;
    ev.crack_shrunk = true;
    assert_eq!(crack_step(31, &ev).code, 32);
    assert_eq!(crack_step(40, &ev).code, 42);
    ev.crack_filled = true;
    assert_eq!(crack_step(31, &ev).code, -10);
    assert_eq!(crack_step(-20, &ev).code, -20);
}

#[test]
fn zone_without_rock_has_no_crack() {
    let mut ev = quiet();
    ev.rock_lacking = true;
    ev.thermal_mismatch = true;
    ev.heating_intensity_reached = true;
    assert_eq!(crack_step(52, &ev).code, 0);
    ev.dissolution_precipitation = true;
    ev.crack_filled = true;
    assert_eq!(crack_step(52, &ev).code, 0);
}

#[test]
fn no_mechanism_keeps_the_code() {
    let ev = quiet();
    for code in [0, 10, 21, 32, 40, 51, -10, -20] {
        assert_eq!(crack_step(code, &ev), update(code, false, false));
    }
}

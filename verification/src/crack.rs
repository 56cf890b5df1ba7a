//! The crack code of a core zone and how one step of the cracking model updates it.
//!
//! A crack code is held in tenths: `0` means no crack; a crack opened by cause `k`
//! (1 cooling, 2 heating, 3 compressive hydration, 4 dehydration, 5 pore water
//! expansion) is `10 * k`, plus 1 once dissolution widened it or 2 once precipitation
//! shrank it; `-10` is a crack closed by precipitation and `-20` one closed by hydration.

use vstd::prelude::*;

verus! {

/// Cooling cracks.
pub const CRACK_COOLING: i32 = 10;

/// Heating cracks.
pub const CRACK_HEATING: i32 = 20;

/// Compressive hydration cracks.
pub const CRACK_HYDRATION: i32 = 30;

/// Dehydration cracks.
pub const CRACK_DEHYDRATION: i32 = 40;

/// Cracks from pore water expansion.
pub const CRACK_PORE: i32 = 50;

/// A crack closed after precipitation.
pub const CRACK_CLOSED_PRECIPITATION: i32 = -10;

/// A crack closed because of hydration.
pub const CRACK_CLOSED_HYDRATION: i32 = -20;

/// Whether `c` is one of the crack codes described above.
pub open spec fn valid_crack_code(c: int) -> bool {
    ||| c == 0
    ||| c == CRACK_CLOSED_PRECIPITATION
    ||| c == CRACK_CLOSED_HYDRATION
    ||| (10 <= c < 60 && c % 10 <= 2)
}

/// What one step of the cracking model observed in a zone. The first four fields tell
/// which mechanisms the run includes; the others are the outcomes of the comparisons
/// that the model makes on the zone's stresses and sizes.
#[derive(Clone, Copy, Debug, PartialEq, Eq, Structural)]
pub struct CrackEvents {
    /// Thermal expansion or contraction mismatch is modelled.
    pub thermal_mismatch: bool,
    /// Hydration and dehydration stresses are modelled.
    pub hydration_dehydration: bool,
    /// Pore water expansion is modelled.
    pub pore_water_expansion: bool,
    /// Dissolution and precipitation are modelled (and fluid circulates).
    pub dissolution_precipitation: bool,
    /// The stress intensity reached the fracture toughness while the zone cooled.
    pub cooling_intensity_reached: bool,
    /// The stress intensity reached the fracture toughness while the zone did not cool.
    pub heating_intensity_reached: bool,
    /// The magnitude of the hydration stress exceeds pressure plus brittle strength.
    pub hydration_stress_exceeds: bool,
    /// The hydration stress is positive (compressive).
    pub hydration_stress_positive: bool,
    /// The hydration stress is at most pressure plus brittle strength.
    pub hydration_stress_within: bool,
    /// The pore water pressure exceeds the brittle strength.
    pub pore_pressure_exceeds: bool,
    /// Dissolution made the crack larger than before this step.
    pub crack_widened: bool,
    /// Precipitation made the crack smaller than before this step.
    pub crack_shrunk: bool,
    /// The crack has no size left.
    pub crack_filled: bool,
    /// The zone holds no more rock than it started with.
    pub rock_lacking: bool,
}

/// The new crack code of a zone and which stresses the step released.
#[derive(Clone, Copy, Debug, PartialEq, Eq, Structural)]
pub struct CrackUpdate {
    /// The crack code after the step.
    pub code: i32,
    /// The hydration stress is released (set to zero).
    pub reset_hydration_stress: bool,
    /// The pore water pressure is released (set to zero).
    pub reset_pore_pressure: bool,
}

/// The code after the mechanisms that open cracks, in the order the model applies them:
/// thermal mismatch, then hydration stress, then pore water expansion.
pub open spec fn opened_code(c: int, ev: CrackEvents) -> int {
    let thermal = if ev.thermal_mismatch && ev.heating_intensity_reached {
        CRACK_HEATING as int
    } else if ev.thermal_mismatch && ev.cooling_intensity_reached {
        CRACK_COOLING as int
    } else {
        c
    };
    let hydration = if ev.hydration_dehydration && ev.hydration_stress_exceeds {
        if ev.hydration_stress_positive {
            CRACK_HYDRATION as int
        } else {
            CRACK_DEHYDRATION as int
        }
    } else {
        thermal
    };
    if ev.pore_water_expansion && ev.pore_pressure_exceeds {
        CRACK_PORE as int
    } else {
        hydration
    }
}

/// The cause part (a multiple of ten) of a positive code.
pub open spec fn cause_of(c: int) -> int {
    c - c % 10
}

/// The code after dissolution widened or precipitation shrank an open crack.
pub open spec fn dissolved_code(c: int, ev: CrackEvents) -> int {
    let widened = if ev.dissolution_precipitation && c > 0 && ev.crack_widened && (c % 10 == 0
        || c % 10 == 2) {
        cause_of(c) + 1
    } else {
        c
    };
    if ev.dissolution_precipitation && widened > 0 && ev.crack_shrunk && (widened % 10 == 0
        || widened % 10 == 1) {
        cause_of(widened) + 2
    } else {
        widened
    }
}

/// A crack closes because of hydration when the hydration stress is compressive but
/// was not released in this step.
pub open spec fn closes_by_hydration(ev: CrackEvents) -> bool {
    ev.hydration_dehydration && !ev.hydration_stress_exceeds && ev.hydration_stress_positive
        && ev.hydration_stress_within
}

/// The crack code after one step: cracks open, are widened or shrunk, and then close.
/// A zone without enough rock has no crack; hydration closes a crack; a crack that
/// precipitation filled up closes.
pub open spec fn crack_code_after(c: int, ev: CrackEvents) -> int {
    let d = dissolved_code(opened_code(c, ev), ev);
    let lacking = if ev.rock_lacking {
        0
    } else {
        d
    };
    let hydrated = if closes_by_hydration(ev) {
        CRACK_CLOSED_HYDRATION as int
    } else {
        lacking
    };
    if ev.dissolution_precipitation && hydrated > 0 && ev.crack_filled {
        CRACK_CLOSED_PRECIPITATION as int
    } else {
        hydrated
    }
}

/// Whether the step releases the pore water pressure: it exceeded the brittle strength,
/// or the crack is one that pore water opened.
pub open spec fn pore_pressure_released(c: int, ev: CrackEvents) -> bool {
    ev.pore_water_expansion && (ev.pore_pressure_exceeds || 50 <= opened_code(c, ev) < 60)
}

/// One step of the crack model's decisions for a zone whose crack code is `code`.
pub fn crack_step(code: i32, ev: &CrackEvents) -> (u: CrackUpdate)
    ensures
        u.code == crack_code_after(code as int, *ev),
        u.reset_hydration_stress == (ev.hydration_dehydration && ev.hydration_stress_exceeds),
        u.reset_pore_pressure == pore_pressure_released(code as int, *ev),
{
    let mut c: i32 = code;
    let mut reset_hydr = false;
    let mut reset_pore = false;
    if ev.thermal_mismatch {
        if ev.cooling_intensity_reached {
            c = CRACK_COOLING;
        }
        if ev.heating_intensity_reached {
            c = CRACK_HEATING;
        }
    }
    if ev.hydration_dehydration && ev.hydration_stress_exceeds {
        if ev.hydration_stress_positive {
            c = CRACK_HYDRATION;
        } else {
            c = CRACK_DEHYDRATION;
        }
        reset_hydr = true;
    }
    if ev.pore_water_expansion {
        if ev.pore_pressure_exceeds {
            c = CRACK_PORE;
            reset_pore = true;
        }
        if 50 <= c && c < 60 {
            reset_pore = true;
        }
    }
    if ev.dissolution_precipitation {
        if c > 0 && ev.crack_widened && (c % 10 == 0 || c % 10 == 2) {
            c = c - c % 10 + 1;
        }
        if c > 0 && ev.crack_shrunk && (c % 10 == 0 || c % 10 == 1) {
            c = c - c % 10 + 2;
        }
    }
    if ev.rock_lacking {
        c = 0;
    }
    if ev.hydration_dehydration && !reset_hydr && ev.hydration_stress_positive
        && ev.hydration_stress_within {
        c = CRACK_CLOSED_HYDRATION;
    }
    if ev.dissolution_precipitation && c > 0 && ev.crack_filled {
        c = CRACK_CLOSED_PRECIPITATION;
    }
    CrackUpdate { code: c, reset_hydration_stress: reset_hydr, reset_pore_pressure: reset_pore }
}

/// Every step maps a crack code to a crack code.
pub proof fn lemma_crack_codes_closed(c: int, ev: CrackEvents)
    requires
        valid_crack_code(c),
    ensures
        valid_crack_code(crack_code_after(c, ev)),
{
}

/// A zone without enough rock ends the step uncracked, or with a crack that
/// hydration closed.
pub proof fn lemma_no_rock_no_crack(c: int, ev: CrackEvents)
    requires
        ev.rock_lacking,
    ensures
        crack_code_after(c, ev) == 0 || crack_code_after(c, ev) == CRACK_CLOSED_HYDRATION,
{
}

/// With no mechanism included and enough rock, a step leaves the crack code as it was.
pub proof fn lemma_no_mechanism_keeps_code(c: int, ev: CrackEvents)
    requires
        !ev.thermal_mismatch,
        !ev.hydration_dehydration,
        !ev.pore_water_expansion,
        !ev.dissolution_precipitation,
        !ev.rock_lacking,
    ensures
        crack_code_after(c, ev) == c,
        !pore_pressure_released(c, ev),
{
}

/// Thermal mismatch cracks a zone whatever its crack code was: when the stress intensity
/// reaches the fracture toughness, the zone ends the step with a heating crack, or with
/// a cooling crack when it cooled, as long as no other mechanism acts and the zone has rock.
pub proof fn lemma_thermal_cracks_override(c: int, ev: CrackEvents)
    requires
        ev.thermal_mismatch,
        !ev.hydration_dehydration,
        !ev.pore_water_expansion,
        !ev.dissolution_precipitation,
        !ev.rock_lacking,
    ensures
        ev.heating_intensity_reached ==> crack_code_after(c, ev) == 20,
        ev.cooling_intensity_reached && !ev.heating_intensity_reached ==> crack_code_after(c, ev)
            == 10,
        !ev.cooling_intensity_reached && !ev.heating_intensity_reached ==> crack_code_after(c, ev)
            == c,
{
}

/// A hydration stress beyond pressure plus brittle strength cracks a zone whatever its
/// crack code was (compressive when the stress is positive, dehydration otherwise) and is
/// released, as long as pore water does not crack it too, dissolution is not modelled and
/// the zone has rock.
pub proof fn lemma_hydration_cracks_override(c: int, ev: CrackEvents)
    requires
        ev.hydration_dehydration,
        ev.hydration_stress_exceeds,
        !(ev.pore_water_expansion && ev.pore_pressure_exceeds),
        !ev.dissolution_precipitation,
        !ev.rock_lacking,
    ensures
        crack_code_after(c, ev) == (if ev.hydration_stress_positive {
            30int
        } else {
            40int
        }),
{
}

/// A compressive hydration stress that stays within pressure plus brittle strength closes
/// the crack, whatever else happens in the step.
pub proof fn lemma_hydration_closes(c: int, ev: CrackEvents)
    requires
        ev.hydration_dehydration,
        !ev.hydration_stress_exceeds,
        ev.hydration_stress_positive,
        ev.hydration_stress_within,
    ensures
        crack_code_after(c, ev) == -20,
{
}

/// A pore water pressure beyond the brittle strength cracks a zone whatever its crack
/// code was, and is released, as long as dissolution is not modelled, the zone has rock
/// and hydration does not close the crack.
pub proof fn lemma_pore_cracks_override(c: int, ev: CrackEvents)
    requires
        ev.pore_water_expansion,
        ev.pore_pressure_exceeds,
        !ev.dissolution_precipitation,
        !ev.rock_lacking,
        !(ev.hydration_dehydration && !ev.hydration_stress_exceeds
            && ev.hydration_stress_positive && ev.hydration_stress_within),
    ensures
        crack_code_after(c, ev) == 50,
        pore_pressure_released(c, ev),
{
}

/// When dissolution is modelled and the crack has no size left, the zone ends the step
/// without an open crack.
pub proof fn lemma_filled_crack_not_open(c: int, ev: CrackEvents)
    requires
        ev.dissolution_precipitation,
        ev.crack_filled,
    ensures
        crack_code_after(c, ev) <= 0,
{
}

/// Dissolution widens an open crack, and precipitation shrinks it, keeping its cause,
/// when nothing else acts in the step.
pub proof fn lemma_dissolution_keeps_cause(c: int, ev: CrackEvents)
    requires
        10 <= c < 60,
        c % 10 <= 2,
        !ev.thermal_mismatch,
        !ev.hydration_dehydration,
        !(ev.pore_water_expansion && ev.pore_pressure_exceeds),
        ev.dissolution_precipitation,
        !ev.crack_filled,
        !ev.rock_lacking,
        !(ev.crack_widened && ev.crack_shrunk),
    ensures
        crack_code_after(c, ev) / 10 == c / 10,
        ev.crack_widened ==> crack_code_after(c, ev) % 10 == 1,
        ev.crack_shrunk ==> crack_code_after(c, ev) % 10 == 2,
        !ev.crack_widened && !ev.crack_shrunk ==> crack_code_after(c, ev) == c,
{
}

} // verus!

//! Radial indices used by the cryovolcanism model: seafloor and base of the crust.

use vstd::prelude::*;

verus! {

/// The first zone below `n_zones` without rock, or `n_zones` when every zone has rock.
pub open spec fn first_rockless(rock_present: Seq<bool>, n_zones: int) -> int
    decreases n_zones,
{
    if n_zones <= 0 {
        0
    } else if first_rockless(rock_present, n_zones - 1) < n_zones - 1 {
        first_rockless(rock_present, n_zones - 1)
    } else if !rock_present[n_zones - 1] {
        n_zones - 1
    } else {
        n_zones
    }
}

/// The seafloor is the top of the rocky core: every zone up to it holds rock, and the zone
/// just above it, when it is one of the `n_zones` zones, holds none.
pub proof fn lemma_first_rockless(rock_present: Seq<bool>, n_zones: int)
    requires
        0 <= n_zones,
    ensures
        0 <= first_rockless(rock_present, n_zones) <= n_zones,
        forall|r: int| 0 <= r < first_rockless(rock_present, n_zones) ==> rock_present[r],
        first_rockless(rock_present, n_zones) < n_zones ==> !rock_present[first_rockless(
            rock_present,
            n_zones,
        )],
    decreases n_zones,
{
    if n_zones > 0 {
        lemma_first_rockless(rock_present, n_zones - 1);
    }
}

/// The seafloor zone: the last zone of the rocky core, that is one below the first zone
/// without rock (-1 when the first zone has none), counting `n_zones` zones;
/// `rock_present[r]` tells whether zone `r` holds rock.
pub fn calculate_seafloor(rock_present: &[bool], n_zones: usize) -> (r: i32)
    requires
        n_zones <= i32::MAX,
        n_zones <= rock_present@.len() || exists|z: int|
            0 <= z < n_zones && z < rock_present@.len() && !rock_present@[z],
    ensures
        r == first_rockless(rock_present@, n_zones as int) - 1,
{
    proof {
        lemma_first_rockless(rock_present@, n_zones as int);
    }
    let mut r: usize = 0;
    while r < n_zones
        invariant
            r <= n_zones <= i32::MAX,
            n_zones <= rock_present@.len() || exists|z: int|
                0 <= z < n_zones && z < rock_present@.len() && !rock_present@[z],
            forall|z: int| 0 <= z < r ==> rock_present@[z],
            0 <= first_rockless(rock_present@, n_zones as int) <= n_zones,
            forall|z: int|
                0 <= z < first_rockless(rock_present@, n_zones as int) ==> rock_present@[z],
            first_rockless(rock_present@, n_zones as int) < n_zones ==> !rock_present@[first_rockless(
                rock_present@,
                n_zones as int,
            )],
        decreases n_zones - r,
    {
        proof {
            if r >= rock_present@.len() {
                let z = choose|z: int|
                    0 <= z < n_zones && z < rock_present@.len() && !rock_present@[z];
                assert(rock_present@[z]);
            }
        }
        if !rock_present[r] {
            return r as i32 - 1;
        }
        r = r + 1;
    }
    n_zones as i32 - 1
}

/// The base of the crust: searching down from zone `n_zones - 2` to just above the seafloor
/// zone, the first zone without rock; `n_zones - 2` when there is none.
pub fn crust_base(rock_present: &[bool], n_zones: usize, seafloor: usize) -> (r: usize)
    requires
        2 <= n_zones <= rock_present@.len() + 1,
    ensures
        r <= n_zones - 2,
        forall|z: int| r < z <= n_zones - 2 && seafloor < z ==> rock_present@[z],
        r < n_zones - 2 ==> seafloor < r && !rock_present@[r as int],
        r == n_zones - 2 ==> (seafloor < r && !rock_present@[r as int]) || forall|z: int|
            seafloor < z <= n_zones - 2 ==> rock_present@[z],
{
    let mut r_diff = n_zones - 2;
    let mut r = n_zones - 2;
    while r > seafloor
        invariant
            2 <= n_zones <= rock_present@.len() + 1,
            r <= n_zones - 2,
            r_diff == n_zones - 2,
            forall|z: int| r < z <= n_zones - 2 ==> rock_present@[z],
        decreases r,
    {
        if !rock_present[r] {
            r_diff = r;
            return r_diff;
        }
        r = r - 1;
    }
    r_diff
}

} // verus!

//! Selection among mean-motion resonances between moons.

use vstd::prelude::*;

verus! {

/// Highest order of resonance that is looked for.
pub const IJMAX: u32 = 5;

/// The lowest order among the resonances in `res` (entries that are 0 mean no resonance),
/// or `IJMAX` when there is none lower.
pub open spec fn lowest_order(res: Seq<u32>) -> u32
    decreases res.len(),
{
    if res.len() == 0 {
        IJMAX
    } else {
        let m = lowest_order(res.drop_last());
        if res.last() > 0 && res.last() <= m {
            res.last()
        } else {
            m
        }
    }
}

/// The number of moons whose resonance with this one has the order `order`.
pub open spec fn count_order(res: Seq<u32>, order: u32) -> nat
    decreases res.len(),
{
    if res.len() == 0 {
        0
    } else {
        count_order(res.drop_last(), order) + if res.last() == order {
            1nat
        } else {
            0nat
        }
    }
}

/// The resonance kept with moon `i`: only resonances of the lowest order are kept, and
/// when several moons share that order, only those already accounted for before.
pub open spec fn screened(res: Seq<u32>, old: Seq<u32>, i: int) -> u32 {
    let m = lowest_order(res);
    if res[i] == m && !(count_order(res, m) > 1 && old[i] == 0) {
        res[i]
    } else {
        0
    }
}

proof fn lemma_lowest_order_bounds(res: Seq<u32>)
    ensures
        1 <= lowest_order(res) <= IJMAX,
        forall|i: int| 0 <= i < res.len() && res[i] > 0 ==> lowest_order(res) <= res[i],
    decreases res.len(),
{
    if res.len() > 0 {
        lemma_lowest_order_bounds(res.drop_last());
        assert forall|i: int| 0 <= i < res.len() && res[i] > 0 implies lowest_order(res)
            <= res[i] by {
            if i < res.len() - 1 {
                assert(res.drop_last()[i] == res[i]);
            }
        }
    }
}

/// Screens out multiple resonances of moon with the others, to keep only the lowest-order
/// ones, and among several of them only those already in place.
/// `resonance[i]` is the order of the resonance with moon `i` (0 for none);
/// `res_acct_for` receives the resonances kept, and `res_acct_for_old` holds those kept
/// before.
pub fn resscreen(resonance: &[u32], res_acct_for: &mut Vec<u32>, res_acct_for_old: &[u32])
    requires
        old(res_acct_for)@.len() >= resonance@.len(),
        res_acct_for_old@.len() >= resonance@.len(),
    ensures
        final(res_acct_for)@.len() == old(res_acct_for)@.len(),
        forall|i: int|
            0 <= i < resonance@.len() ==> final(res_acct_for)@[i] == screened(
                resonance@,
                res_acct_for_old@.take(resonance@.len() as int),
                i,
            ),
        forall|i: int|
            resonance@.len() <= i < final(res_acct_for)@.len() ==> final(res_acct_for)@[i] == 0,
{
    let nmoons = resonance.len();
    let ghost res = resonance@;
    let ghost old_acct = res_acct_for_old@.take(nmoons as int);
    let mut res_min: u32 = IJMAX;
    for i in 0..nmoons
        invariant
            nmoons == res.len(),
            res == resonance@,
            res_min == lowest_order(res.take(i as int)),
    {
        assert(res.take(i + 1).drop_last() =~= res.take(i as int));
        if resonance[i] > 0 && resonance[i] <= res_min {
            res_min = resonance[i];
        }
    }
    assert(res.take(nmoons as int) =~= res);
    let mut nbres: usize = 0;
    for i in 0..nmoons
        invariant
            nmoons == res.len(),
            res == resonance@,
            nbres == count_order(res.take(i as int), res_min),
            nbres <= i,
    {
        assert(res.take(i + 1).drop_last() =~= res.take(i as int));
        if resonance[i] == res_min {
            nbres = nbres + 1;
        }
    }
    let len = res_acct_for.len();
    for i in 0..len
        invariant
            len == res_acct_for@.len(),
            forall|j: int| 0 <= j < i ==> res_acct_for@[j] == 0,
    {
        res_acct_for.set(i, 0);
    }
    for i in 0..nmoons
        invariant
            nmoons == res.len(),
            res == resonance@,
            nmoons <= len,
            len == res_acct_for@.len(),
            res_acct_for_old@.len() >= nmoons,
            old_acct == res_acct_for_old@.take(nmoons as int),
            res_min == lowest_order(res),
            nbres == count_order(res, res_min),
            forall|j: int| 0 <= j < i ==> res_acct_for@[j] == screened(res, old_acct, j),
            forall|j: int| i <= j < len ==> res_acct_for@[j] == 0,
    {
        if resonance[i] == res_min && !(nbres > 1 && res_acct_for_old[i] == 0) {
            res_acct_for.set(i, resonance[i]);
        }
    }
}

proof fn lemma_count_order_two(res: Seq<u32>, order: u32, i: int, j: int)
    requires
        0 <= i < res.len(),
        0 <= j < res.len(),
        i != j,
        res[i] == order,
        res[j] == order,
    ensures
        count_order(res, order) >= 2,
    decreases res.len(),
{
    let last = res.len() - 1;
    if i == last || j == last {
        let other = if i == last {
            j
        } else {
            i
        };
        lemma_count_order_one(res.drop_last(), order, other);
    } else {
        lemma_count_order_two(res.drop_last(), order, i, j);
    }
}

proof fn lemma_count_order_one(res: Seq<u32>, order: u32, i: int)
    requires
        0 <= i < res.len(),
        res[i] == order,
    ensures
        count_order(res, order) >= 1,
    decreases res.len(),
{
    if i < res.len() - 1 {
        lemma_count_order_one(res.drop_last(), order, i);
    }
}

/// Only the strongest resonances are kept: a kept resonance has the lowest order among all
/// resonances of the moon, and when two moons are kept, both were already accounted for.
pub proof fn lemma_resscreen_keeps_strongest(res: Seq<u32>, old: Seq<u32>, i: int, j: int)
    requires
        res.len() == old.len(),
        0 <= i < res.len(),
        0 <= j < res.len(),
    ensures
        screened(res, old, i) != 0 ==> screened(res, old, i) == res[i] && (res[j] > 0 ==> res[i]
            <= res[j]),
        screened(res, old, i) != 0 && screened(res, old, j) != 0 && i != j ==> old[i] != 0
            && old[j] != 0,
{
    lemma_lowest_order_bounds(res);
    if screened(res, old, i) != 0 && screened(res, old, j) != 0 && i != j {
        lemma_count_order_two(res, lowest_order(res), i, j);
    }
}

proof fn lemma_lowest_order_attained(res: Seq<u32>)
    ensures
        lowest_order(res) == IJMAX || exists|j: int|
            0 <= j < res.len() && res[j] > 0 && res[j] == lowest_order(res),
    decreases res.len(),
{
    if res.len() > 0 {
        let m = lowest_order(res.drop_last());
        lemma_lowest_order_attained(res.drop_last());
        if !(res.last() > 0 && res.last() <= m) && m != IJMAX {
            let j = choose|j: int|
                0 <= j < res.drop_last().len() && res.drop_last()[j] > 0 && res.drop_last()[j]
                    == m;
            assert(res[j] == res.drop_last()[j]);
        }
    }
}

proof fn lemma_count_order_alone(res: Seq<u32>, order: u32, i: int)
    requires
        0 <= i < res.len(),
        forall|j: int| 0 <= j < res.len() && j != i ==> res[j] != order,
    ensures
        count_order(res, order) <= 1,
    decreases res.len(),
{
    let last = res.len() - 1;
    if i == last {
        lemma_count_order_none(res.drop_last(), order);
    } else {
        assert forall|j: int| 0 <= j < res.drop_last().len() && j != i implies res.drop_last()[j]
            != order by {
            assert(res.drop_last()[j] == res[j]);
        }
        lemma_count_order_alone(res.drop_last(), order, i);
    }
}

proof fn lemma_count_order_none(res: Seq<u32>, order: u32)
    requires
        forall|j: int| 0 <= j < res.len() ==> res[j] != order,
    ensures
        count_order(res, order) == 0,
    decreases res.len(),
{
    if res.len() > 0 {
        assert forall|j: int| 0 <= j < res.drop_last().len() implies res.drop_last()[j]
            != order by {
            assert(res.drop_last()[j] == res[j]);
        }
        lemma_count_order_none(res.drop_last(), order);
    }
}

/// The resonance with moon `i` is one (of order 1 to `IJMAX`) and no resonance of the
/// moon has a lower order.
pub open spec fn is_strongest(res: Seq<u32>, i: int) -> bool {
    &&& 0 < res[i] <= IJMAX
    &&& forall|j: int| 0 <= j < res.len() && res[j] > 0 ==> res[i] <= res[j]
}

/// No moon other than `i` is in a resonance of the same order as moon `i`.
pub open spec fn order_unshared(res: Seq<u32>, i: int) -> bool {
    forall|j: int| 0 <= j < res.len() && j != i ==> res[j] != res[i]
}

/// What is kept of the resonance with moon `i`: it is kept exactly when it is of the
/// lowest order among all of the moon's resonances, and either it was already accounted
/// for or no other moon is in a resonance of that order. Otherwise nothing is kept.
pub proof fn lemma_resscreen_kept_exactly(res: Seq<u32>, old: Seq<u32>, i: int)
    requires
        res.len() == old.len(),
        0 <= i < res.len(),
    ensures
        is_strongest(res, i) && (old[i] != 0 || order_unshared(res, i)) ==> screened(res, old, i)
            == res[i],
        !(is_strongest(res, i) && (old[i] != 0 || order_unshared(res, i))) ==> screened(
            res,
            old,
            i,
        ) == 0,
{
    lemma_lowest_order_bounds(res);
    lemma_lowest_order_attained(res);
    let m = lowest_order(res);
    if is_strongest(res, i) {
        if m != IJMAX {
            let j = choose|j: int| 0 <= j < res.len() && res[j] > 0 && res[j] == m;
            assert(res[i] <= res[j]);
        }
        assert(res[i] == m);
    }
    if res[i] == m {
        if order_unshared(res, i) {
            lemma_count_order_alone(res, m, i);
        } else {
            let j = choose|j: int| 0 <= j < res.len() && j != i && res[j] == res[i];
            lemma_count_order_two(res, m, i, j);
        }
    }
}

} // verus!

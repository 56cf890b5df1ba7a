//! Index logic of the planetary materials database used by the compression model.

use vstd::prelude::*;
use itertools::Itertools;

verus! {

broadcast use vstd::seq_lib::group_to_multiset_ensures;

/// The entries of `keys` never decrease.
pub open spec fn sorted_keys(keys: Seq<usize>) -> bool {
    forall|i: int, j: int| 0 <= i < j < keys.len() ==> keys[i] <= keys[j]
}

/// Position of the material with database index `mat` among the database indices
/// `db_indices` of the entries, sorted in increasing order.
/// Any position holding `mat` may be returned; `None` when no entry holds it.
pub fn planmat_index(db_indices: &[usize], mat: usize) -> (r: Option<usize>)
    ensures
        r matches Some(i) ==> i < db_indices@.len() && db_indices@[i as int] == mat,
        sorted_keys(db_indices@) ==> (r is None <==> !db_indices@.contains(mat)),
{
    let mut lo: usize = 0;
    let mut hi: usize = db_indices.len();
    while lo < hi
        invariant
            lo <= hi <= db_indices@.len(),
            sorted_keys(db_indices@) ==> forall|i: int| 0 <= i < lo ==> db_indices@[i] < mat,
            sorted_keys(db_indices@) ==> forall|i: int|
                hi <= i < db_indices@.len() ==> db_indices@[i] > mat,
        decreases hi - lo,
    {
        let mid = lo + (hi - lo) / 2;
        let k = db_indices[mid];
        if k == mat {
            return Some(mid);
        } else if k < mat {
            lo = mid + 1;
        } else {
            hi = mid;
        }
    }
    proof {
        if sorted_keys(db_indices@) && db_indices@.contains(mat) {
            let i = choose|i: int| 0 <= i < db_indices@.len() && db_indices@[i] == mat;
            assert(db_indices@[i] == mat);
        }
    }
    None
}

/// Sorts pairs by their first component with `Itertools::sorted_by_key`, a stable sort.
#[verifier::external_body]
fn sorted_by_first(v: Vec<(usize, usize)>) -> (r: Vec<(usize, usize)>)
    ensures
        r@.to_multiset() == v@.to_multiset(),
        forall|a: int, b: int| 0 <= a < b < r@.len() ==> r@[a].0 <= r@[b].0,
        forall|a: int, b: int|
            0 <= a < b < r@.len() && r@[a].0 == r@[b].0 ==> exists|p: int, q: int|
                0 <= p < q < v@.len() && v@[p] == r@[a] && v@[q] == r@[b],
{
    v.into_iter().sorted_by_key(|p| p.0).collect()
}

/// Line `i` of the database file holds an entry that is read: the file starts with four
/// header lines, after which entry lines alternate with material-name lines, and the
/// entry line parsed (its database index is `keys[i]`).
pub open spec fn is_entry_line(keys: Seq<Option<usize>>, i: int) -> bool {
    &&& 4 <= i < keys.len()
    &&& (i - 4) % 2 == 0
    &&& keys[i] is Some
}

/// Whether line `a` comes before line `b` in the database order: by database index,
/// then by position in the file.
pub open spec fn entry_before(keys: Seq<Option<usize>>, a: int, b: int) -> bool {
    keys[a]->0 < keys[b]->0 || (keys[a]->0 == keys[b]->0 && a < b)
}

/// The order of the database entries: given, for each line of the database file, the
/// database index its entry parses to (`None` where it does not parse), the line numbers
/// of the entries that are read, sorted by database index and, among equal indices, by
/// position in the file.
pub fn planmat_order(keys: &Vec<Option<usize>>) -> (r: Vec<usize>)
    ensures
        forall|a: int| 0 <= a < r@.len() ==> is_entry_line(keys@, r@[a] as int),
        forall|i: int| is_entry_line(keys@, i) ==> r@.contains(i as usize),
        forall|a: int, b: int|
            0 <= a < b < r@.len() ==> entry_before(keys@, r@[a] as int, r@[b] as int),
{
    let n = keys.len();
    let slots: usize = if n > 4 {
        (n - 3) / 2
    } else {
        0
    };
    let mut pairs: Vec<(usize, usize)> = Vec::new();
    let mut t: usize = 0;
    while t < slots
        invariant
            n == keys@.len(),
            slots == (if n > 4 { (n - 3) / 2 } else { 0 }),
            t <= slots,
            forall|a: int|
                0 <= a < pairs@.len() ==> is_entry_line(keys@, pairs@[a].1 as int) && keys@[pairs@[
                    a
                ].1 as int] == Some(pairs@[a].0) && pairs@[a].1 < 4 + 2 * t,
            forall|a: int, b: int| 0 <= a < b < pairs@.len() ==> pairs@[a].1 < pairs@[b].1,
            forall|j: int|
                j < 4 + 2 * t && is_entry_line(keys@, j) ==> exists|a: int|
                    0 <= a < pairs@.len() && pairs@[a].1 == j,
        decreases slots - t,
    {
        let i: usize = 4 + 2 * t;
        let ghost old_pairs = pairs@;
        if let Some(k) = keys[i] {
            pairs.push((k, i));
            assert(pairs@[pairs@.len() - 1].1 == i);
        }
        assert forall|j: int| j < i + 2 && is_entry_line(keys@, j) implies exists|a: int|
            0 <= a < pairs@.len() && pairs@[a].1 == j by {
            if j < i {
                let a = choose|a: int| 0 <= a < old_pairs.len() && old_pairs[a].1 == j;
                assert(pairs@[a] == old_pairs[a]);
            } else {
                assert(j == i);
                assert(pairs@[pairs@.len() - 1].1 == i);
            }
        }
        t = t + 1;
    }
    assert forall|j: int| is_entry_line(keys@, j) implies j < 4 + 2 * t by {
    }
    let ghost unsorted = pairs@;
    let sorted = sorted_by_first(pairs);
    let mut r: Vec<usize> = Vec::new();
    let m = sorted.len();
    for j in 0..m
        invariant
            m == sorted@.len(),
            r@.len() == j,
            forall|a: int| 0 <= a < j ==> r@[a] == sorted@[a].1,
    {
        r.push(sorted[j].1);
    }
    proof {
        assert forall|a: int| 0 <= a < r@.len() implies is_entry_line(keys@, r@[a] as int)
            && keys@[r@[a] as int] == Some(sorted@[a].0) by {
            assert(sorted@.contains(sorted@[a]));
            assert(sorted@.to_multiset().count(sorted@[a]) > 0);
            assert(unsorted.to_multiset().count(sorted@[a]) > 0);
            assert(unsorted.contains(sorted@[a]));
        }
        assert forall|i: int| is_entry_line(keys@, i) implies r@.contains(i as usize) by {
            let a = choose|a: int| 0 <= a < unsorted.len() && unsorted[a].1 == i;
            assert(unsorted.contains(unsorted[a]));
            assert(unsorted.to_multiset().count(unsorted[a]) > 0);
            assert(sorted@.to_multiset().count(unsorted[a]) > 0);
            assert(sorted@.contains(unsorted[a]));
            let b = choose|b: int| 0 <= b < sorted@.len() && sorted@[b] == unsorted[a];
            assert(r@[b] == i);
        }
        assert forall|a: int, b: int| 0 <= a < b < r@.len() implies entry_before(
            keys@,
            r@[a] as int,
            r@[b] as int,
        ) by {
            if sorted@[a].0 == sorted@[b].0 {
                let (p, q) = choose|p: int, q: int|
                    0 <= p < q < unsorted.len() && unsorted[p] == sorted@[a] && unsorted[q]
                        == sorted@[b];
                assert(unsorted[p].1 < unsorted[q].1);
            }
        }
    }
    r
}

/// Layer of the compression grid.
#[derive(Debug, Clone, Copy, PartialEq, Eq, Structural)]
pub enum Layer {
    /// Inner core.
    InnerCore,
    /// Outer core.
    OuterCore,
    /// Mantle.
    Mantle,
}

/// The layer of boundary `ir` of the compression grid when the inner core spans the
/// boundaries up to `nic` and the outer core those up to `noc`: inner core up to `nic`,
/// outer core above it up to `noc` (and at the centre when `noc` is 0), mantle above `noc`.
pub open spec fn layer_of(ir: int, nic: int, noc: int) -> Layer {
    if ir > noc {
        Layer::Mantle
    } else if noc == 0 {
        Layer::OuterCore
    } else if noc > nic && ir > nic {
        Layer::OuterCore
    } else {
        Layer::InnerCore
    }
}

/// The layer of each of the `nr + 1` boundaries of the compression grid.
pub fn compression_layers(nic: usize, noc: usize, nr: usize) -> (layers: Vec<Layer>)
    requires
        nic <= nr,
        noc <= nr,
        nr < usize::MAX,
    ensures
        layers@.len() == nr + 1,
        forall|ir: int| 0 <= ir <= nr ==> #[trigger] layers@[ir] == layer_of(ir, nic as int, noc as int),
{
    let mut layers: Vec<Layer> = Vec::new();
    for ir in 0..nr + 1
        invariant
            layers@.len() == ir,
            forall|q: int| 0 <= q < ir ==> #[trigger] layers@[q] == layer_of(q, nic as int, noc as int),
    {
        let layer = if ir > noc {
            Layer::Mantle
        } else if noc == 0 {
            Layer::OuterCore
        } else if noc > nic && ir > nic {
            Layer::OuterCore
        } else {
            Layer::InnerCore
        };
        layers.push(layer);
    }
    layers
}

/// Rank of a layer, from the centre outwards.
pub open spec fn layer_rank(l: Layer) -> int {
    match l {
        Layer::InnerCore => 0,
        Layer::OuterCore => 1,
        Layer::Mantle => 2,
    }
}

/// The layers of the compression grid never go back inwards: a boundary further out is
/// never in a layer nearer the centre.
pub proof fn lemma_layers_outward(ir: int, jr: int, nic: int, noc: int)
    requires
        0 <= ir <= jr,
        0 <= nic,
        0 <= noc,
    ensures
        layer_rank(layer_of(ir, nic, noc)) <= layer_rank(layer_of(jr, nic, noc)),
{
}

/// Where each layer lies: every boundary above the outer core's top `noc` is in the
/// mantle; with a core, the boundaries up to both `nic` and `noc` are in the inner core and
/// those above `nic` up to `noc` in the outer core; without one (`noc` 0) the centre is
/// counted in the outer core.
pub proof fn lemma_layers_by_radius(ir: int, nic: int, noc: int)
    requires
        0 <= ir,
        0 <= nic,
        0 <= noc,
    ensures
        ir > noc ==> layer_of(ir, nic, noc) == Layer::Mantle,
        0 < noc && ir <= nic && ir <= noc ==> layer_of(ir, nic, noc) == Layer::InnerCore,
        nic < ir <= noc ==> layer_of(ir, nic, noc) == Layer::OuterCore,
        noc == 0 && ir == 0 ==> layer_of(ir, nic, noc) == Layer::OuterCore,
{
}

} // verus!

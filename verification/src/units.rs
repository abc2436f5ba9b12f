//! Mapping from physical core indices to OS-schedulable execution units.
//!
//! On a host with `n` physical cores and 2-way simultaneous multithreading,
//! physical core `c` owns the execution units `c` and `c + n`; both must be
//! reserved together when the core is stressed.

use vstd::prelude::*;

verus! {

/// The execution units owned by physical core `c` on a host with
/// `n_physical` physical cores: the core itself and its hyperthread sibling.
pub open spec fn spec_units_for(c: usize, n_physical: usize) -> Seq<usize> {
    seq![c, (c + n_physical) as usize]
}

/// The execution units owned by a list of physical cores, in the order the
/// cores are given: each core contributes its own pair of units.
pub open spec fn spec_units_for_many(cores: Seq<usize>, n_physical: usize) -> Seq<usize>
    decreases cores.len(),
{
    if cores.len() == 0 {
        Seq::empty()
    } else {
        spec_units_for_many(cores.drop_last(), n_physical)
            + spec_units_for(cores.last(), n_physical)
    }
}

/// Returns the execution units that must be reserved together to stress the
/// physical core `c`: the core itself and its hyperthread sibling `c + n`.
/// The two units are always distinct.
pub fn units_for(c: usize, n_physical: usize) -> (r: Vec<usize>)
    requires
        c < n_physical,
        n_physical <= usize::MAX / 2,
    ensures
        r@ == spec_units_for(c, n_physical),
        r@.len() == 2,
        r@[0] == c,
        r@[1] == c + n_physical,
        r@.no_duplicates(),
{
    let mut r: Vec<usize> = Vec::new();
    r.push(c);
    r.push(c + n_physical);
    assert(r@ =~= spec_units_for(c, n_physical));
    r
}

/// Distinct physical cores own disjoint execution units, so pins of distinct
/// cores never steal each other's units: one build's pin cannot silently
/// unpin another's.
pub proof fn lemma_distinct_cores_disjoint_units(c1: usize, c2: usize, n_physical: usize)
    requires
        c1 < n_physical,
        c2 < n_physical,
        c1 != c2,
        n_physical <= usize::MAX / 2,
    ensures
        forall|x: usize|
            #[trigger] spec_units_for(c1, n_physical).contains(x) ==> !spec_units_for(
                c2,
                n_physical,
            ).contains(x),
{
    let u1 = spec_units_for(c1, n_physical);
    let u2 = spec_units_for(c2, n_physical);
    assert(u1.len() == 2 && u1[0] == c1 && u1[1] == c1 + n_physical);
    assert(u2.len() == 2 && u2[0] == c2 && u2[1] == c2 + n_physical);
    assert forall|x: usize| #[trigger] u1.contains(x) implies !u2.contains(x) by {
        let i = choose|i: int| 0 <= i < u1.len() && u1[i] == x;
        assert(0 <= i < 2 && u1[i] == x);
        assert(x == c1 || x == c1 + n_physical);
        if u2.contains(x) {
            let j = choose|j: int| 0 <= j < u2.len() && u2[j] == x;
            assert(0 <= j < 2 && u2[j] == x);
            assert(x == c2 || x == c2 + n_physical);
            assert(false);
        }
    }
}

/// The execution units owned by a list of physical cores, as a set: the
/// union over the cores of each core's pair of units.
pub open spec fn spec_units_set(cores: Seq<usize>, n_physical: usize) -> Set<usize>
    decreases cores.len(),
{
    if cores.len() == 0 {
        Set::empty()
    } else {
        spec_units_set(cores.drop_last(), n_physical).union(
            spec_units_for(cores.last(), n_physical).to_set(),
        )
    }
}

/// The unit list of a core list holds, as a set, exactly the union of the
/// cores' sibling pairs: the documented sibling formula, independent of the
/// order the units are listed in.
pub proof fn lemma_units_for_many_as_set(cores: Seq<usize>, n_physical: usize)
    ensures
        spec_units_for_many(cores, n_physical).to_set() == spec_units_set(cores, n_physical),
    decreases cores.len(),
{
    broadcast use vstd::seq_lib::lemma_seq_concat_contains_all_elements;

    if cores.len() == 0 {
        assert(spec_units_for_many(cores, n_physical).to_set() =~= spec_units_set(
            cores,
            n_physical,
        ));
    } else {
        lemma_units_for_many_as_set(cores.drop_last(), n_physical);
        assert(spec_units_for_many(cores, n_physical).to_set() =~= spec_units_set(
            cores,
            n_physical,
        ));
    }
}

proof fn lemma_units_set_membership(cores: Seq<usize>, n_physical: usize, x: usize)
    requires
        spec_units_set(cores, n_physical).contains(x),
    ensures
        exists|k: int|
            0 <= k < cores.len() && spec_units_for(#[trigger] cores[k], n_physical).contains(x),
    decreases cores.len(),
{
    if cores.len() == 0 {
        assert(false);
    } else if spec_units_for(cores.last(), n_physical).to_set().contains(x) {
        assert(spec_units_for(cores[cores.len() - 1], n_physical).contains(x));
    } else {
        lemma_units_set_membership(cores.drop_last(), n_physical, x);
        let k = choose|k: int|
            0 <= k < cores.drop_last().len() && spec_units_for(
                #[trigger] cores.drop_last()[k],
                n_physical,
            ).contains(x);
        assert(cores[k] == cores.drop_last()[k]);
        assert(spec_units_for(cores[k], n_physical).contains(x));
    }
}

/// With pairwise-distinct cores the unit list has no duplicates and exactly
/// two units per core: each core's pair is duplicate-free, and distinct
/// cores' pairs are disjoint.
pub proof fn lemma_units_for_many_no_duplicates(cores: Seq<usize>, n_physical: usize)
    requires
        cores.no_duplicates(),
        forall|i: int| 0 <= i < cores.len() ==> cores[i] < n_physical,
        n_physical <= usize::MAX / 2,
    ensures
        spec_units_for_many(cores, n_physical).no_duplicates(),
        spec_units_for_many(cores, n_physical).len() == 2 * cores.len(),
    decreases cores.len(),
{
    if cores.len() == 0 {
        assert(spec_units_for_many(cores, n_physical).no_duplicates());
    } else {
        let rest = cores.drop_last();
        let last = cores.last();
        assert(rest.no_duplicates());
        lemma_units_for_many_no_duplicates(rest, n_physical);
        let a = spec_units_for_many(rest, n_physical);
        let b = spec_units_for(last, n_physical);
        assert(b.no_duplicates());
        assert forall|i: int, j: int| 0 <= i < a.len() && 0 <= j < b.len() implies a[i] != b[j] by {
            assert(a.contains(a[i]));
            lemma_units_for_many_as_set(rest, n_physical);
            assert(spec_units_set(rest, n_physical).contains(a[i]));
            lemma_units_set_membership(rest, n_physical, a[i]);
            let k = choose|k: int|
                0 <= k < rest.len() && spec_units_for(#[trigger] rest[k], n_physical).contains(
                    a[i],
                );
            assert(rest[k] == cores[k] && last == cores[cores.len() - 1]);
            assert(rest[k] != last);
            lemma_distinct_cores_disjoint_units(rest[k], last, n_physical);
            assert(!b.contains(a[i]));
            assert(b.contains(b[j]));
        }
        vstd::seq_lib::lemma_no_dup_in_concat(a, b);
    }
}

/// Returns the execution units owned by all the given physical cores, core by
/// core in the order given; used when one build may run on any unit of several
/// stressed cores at once.  As a set, the result is the union of the cores'
/// sibling pairs.
pub fn units_for_many(cores: &Vec<usize>, n_physical: usize) -> (r: Vec<usize>)
    requires
        forall|i: int| 0 <= i < cores@.len() ==> cores@[i] < n_physical,
        n_physical <= usize::MAX / 2,
    ensures
        r@ == spec_units_for_many(cores@, n_physical),
        r@.to_set() == spec_units_set(cores@, n_physical),
        r@.len() == 2 * cores@.len(),
        forall|i: int|
            0 <= i < cores@.len() ==> r@[2 * i] == cores@[i] && r@[2 * i + 1] == cores@[i]
                + n_physical,
{
    let mut r: Vec<usize> = Vec::new();
    let mut k: usize = 0;
    while k < cores.len()
        invariant
            forall|i: int| 0 <= i < cores@.len() ==> cores@[i] < n_physical,
            n_physical <= usize::MAX / 2,
            k <= cores@.len(),
            r@ == spec_units_for_many(cores@.take(k as int), n_physical),
            r@.len() == 2 * k,
            forall|i: int|
                0 <= i < k ==> r@[2 * i] == cores@[i] && r@[2 * i + 1] == cores@[i] + n_physical,
        decreases cores@.len() - k,
    {
        r.push(cores[k]);
        r.push(cores[k] + n_physical);
        proof {
            let taken = cores@.take(k + 1 as int);
            assert(taken.drop_last() =~= cores@.take(k as int));
            assert(taken.last() == cores@[k as int]);
            assert(r@ =~= spec_units_for_many(taken.drop_last(), n_physical)
                + spec_units_for(cores@[k as int], n_physical));
        }
        k = k + 1;
    }
    proof {
        assert(cores@.take(cores@.len() as int) =~= cores@);
        lemma_units_for_many_as_set(cores@, n_physical);
    }
    r
}

} // verus!

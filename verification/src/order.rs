//! The order in which a scene's objects are written out: by group, and
//! within a group by index. Members of one group thus lie side by side.

use vstd::prelude::*;
use vstd::set_lib::{lemma_int_range, lemma_map_size, lemma_subset_equality, set_int_range};

verus! {

/// Whether object `j` is written before object `i`: its group is lower, or
/// the groups are equal and `j` is the lower index. `groups[i]` is the group
/// of object `i`.
pub open spec fn precedes(groups: Seq<usize>, j: int, i: int) -> bool {
    groups[j] < groups[i] || (groups[j] == groups[i] && j < i)
}

/// How many of the first `upto` objects are written before object `i`.
pub open spec fn count_preceding(groups: Seq<usize>, i: int, upto: int) -> int
    decreases upto,
{
    if upto <= 0 {
        0
    } else {
        count_preceding(groups, i, upto - 1) + if precedes(groups, upto - 1, i) {
            1int
        } else {
            0int
        }
    }
}

/// The place of object `i` in the output: the number of objects written
/// before it.
pub open spec fn slot_of(groups: Seq<usize>, i: int) -> int {
    count_preceding(groups, i, groups.len() as int)
}

/// The object written at place `k`.
pub open spec fn object_at(groups: Seq<usize>, k: int) -> int {
    choose|i: int| 0 <= i < groups.len() && slot_of(groups, i) == k
}

proof fn lemma_count_bounds(groups: Seq<usize>, i: int, upto: int)
    requires
        0 <= upto,
    ensures
        0 <= count_preceding(groups, i, upto) <= upto,
        0 <= i < upto ==> count_preceding(groups, i, upto) < upto,
    decreases upto,
{
    if upto > 0 {
        lemma_count_bounds(groups, i, upto - 1);
    }
}

proof fn lemma_count_ordered(groups: Seq<usize>, a: int, b: int, upto: int)
    requires
        0 <= upto,
        0 <= a,
        precedes(groups, a, b),
    ensures
        count_preceding(groups, a, upto) <= count_preceding(groups, b, upto),
        a < upto ==> count_preceding(groups, a, upto) < count_preceding(groups, b, upto),
    decreases upto,
{
    if upto > 0 {
        lemma_count_ordered(groups, a, b, upto - 1);
    }
}

/// Every object has a place among the places of the objects.
pub proof fn lemma_slot_in_range(groups: Seq<usize>, i: int)
    requires
        0 <= i < groups.len(),
    ensures
        0 <= slot_of(groups, i) < groups.len(),
{
    lemma_count_bounds(groups, i, groups.len() as int);
}

/// An object of a lower group, or of the same group and added earlier, has
/// the lower place.
pub proof fn lemma_slot_ordered(groups: Seq<usize>, a: int, b: int)
    requires
        0 <= a < groups.len(),
        0 <= b < groups.len(),
        precedes(groups, a, b),
    ensures
        slot_of(groups, a) < slot_of(groups, b),
{
    lemma_count_ordered(groups, a, b, groups.len() as int);
}

/// No two objects share a place.
pub proof fn lemma_slot_injective(groups: Seq<usize>, a: int, b: int)
    requires
        0 <= a < groups.len(),
        0 <= b < groups.len(),
        slot_of(groups, a) == slot_of(groups, b),
    ensures
        a == b,
{
    if precedes(groups, a, b) {
        lemma_slot_ordered(groups, a, b);
    } else if precedes(groups, b, a) {
        lemma_slot_ordered(groups, b, a);
    }
}

/// Every place below the number of objects is the place of exactly one
/// object, which is `object_at` of that place.
pub proof fn lemma_object_at(groups: Seq<usize>, k: int)
    requires
        0 <= k < groups.len(),
    ensures
        0 <= object_at(groups, k) < groups.len(),
        slot_of(groups, object_at(groups, k)) == k,
{
    let n = groups.len() as int;
    let objects = set_int_range(0, n);
    let f = |i: int| slot_of(groups, i);
    let places = objects.map(f);
    lemma_int_range(0, n);
    assert(vstd::relations::injective_on(f, objects)) by {
        assert forall|a: int, b: int|
            objects.contains(a) && objects.contains(b) && #[trigger] f(a) == #[trigger] f(
                b,
            ) implies a == b by {
            lemma_slot_injective(groups, a, b);
        }
    }
    lemma_map_size(objects, places, f);
    assert(places.subset_of(objects)) by {
        assert forall|p: int| places.contains(p) implies objects.contains(p) by {
            let i = choose|i: int| objects.contains(i) && p == f(i);
            lemma_slot_in_range(groups, i);
        }
    }
    lemma_subset_equality(places, objects);
    assert(places.contains(k));
    let i = choose|i: int| objects.contains(i) && k == f(i);
    assert(0 <= i < groups.len() && slot_of(groups, i) == k);
}

/// The object written at the place of object `i` is `i`.
pub proof fn lemma_object_at_slot(groups: Seq<usize>, i: int)
    requires
        0 <= i < groups.len(),
    ensures
        object_at(groups, slot_of(groups, i)) == i,
{
    lemma_slot_in_range(groups, i);
    lemma_object_at(groups, slot_of(groups, i));
    lemma_slot_injective(groups, object_at(groups, slot_of(groups, i)), i);
}

/// From place to place the group never falls, and where it stays the same
/// the index rises: the output is sorted by group, and objects of one group
/// keep the order in which they were added.
pub proof fn lemma_output_sorted(groups: Seq<usize>, a: int, b: int)
    requires
        0 <= a < b < groups.len(),
    ensures
        precedes(groups, object_at(groups, a), object_at(groups, b)),
{
    lemma_object_at(groups, a);
    lemma_object_at(groups, b);
    let i = object_at(groups, a);
    let j = object_at(groups, b);
    if !precedes(groups, i, j) {
        if i != j {
            lemma_slot_ordered(groups, j, i);
        }
    }
}

/// The objects of one group fill a run of places without a gap: between two
/// places of one group, every place holds an object of that group.
pub proof fn lemma_group_contiguous(groups: Seq<usize>, a: int, b: int, c: int)
    requires
        0 <= a <= b <= c < groups.len(),
        groups[object_at(groups, a)] == groups[object_at(groups, c)],
    ensures
        groups[object_at(groups, b)] == groups[object_at(groups, a)],
{
    if a < b {
        lemma_output_sorted(groups, a, b);
    }
    if b < c {
        lemma_output_sorted(groups, b, c);
    }
}

/// The place at which object `i` is written.
pub fn slot(groups: &Vec<usize>, i: usize) -> (r: usize)
    requires
        i < groups.len(),
    ensures
        r == slot_of(groups@, i as int),
        r < groups.len(),
{
    let n = groups.len();
    let g = groups[i];
    let mut count: usize = 0;
    let mut j: usize = 0;
    while j < n
        invariant
            n == groups.len(),
            i < n,
            g == groups[i as int],
            j <= n,
            count == count_preceding(groups@, i as int, j as int),
            count <= j,
        decreases n - j,
    {
        if groups[j] < g || (groups[j] == g && j < i) {
            count = count + 1;
        }
        j = j + 1;
    }
    proof {
        lemma_slot_in_range(groups@, i as int);
    }
    count
}

/// The objects in the order in which they are written: at `k` the index of
/// the object written at place `k`.
pub fn emission_order(groups: &Vec<usize>) -> (order: Vec<usize>)
    ensures
        order.len() == groups.len(),
        forall|k: int| 0 <= k < groups.len() ==> order[k] == object_at(groups@, k),
{
    let n = groups.len();
    let mut order: Vec<usize> = Vec::new();
    let mut k: usize = 0;
    while k < n
        invariant
            k <= n,
            order.len() == k,
        decreases n - k,
    {
        order.push(0);
        k = k + 1;
    }
    let mut i: usize = 0;
    while i < n
        invariant
            n == groups.len(),
            order.len() == n,
            i <= n,
            forall|j: int| 0 <= j < i ==> order[#[trigger] slot_of(groups@, j)] == j,
        decreases n - i,
    {
        let s = slot(groups, i);
        let ghost before = order@;
        order.set(s, i);
        proof {
            assert forall|j: int| 0 <= j < i + 1 implies order[#[trigger] slot_of(groups@, j)]
                == j by {
                lemma_slot_in_range(groups@, j);
                if j < i {
                    if slot_of(groups@, j) == s {
                        lemma_slot_injective(groups@, j, i as int);
                    }
                    assert(before[slot_of(groups@, j)] == j);
                }
            }
        }
        i = i + 1;
    }
    proof {
        assert forall|k: int| 0 <= k < n implies order[k] == object_at(groups@, k) by {
            lemma_object_at(groups@, k);
        }
    }
    order
}

} // verus!

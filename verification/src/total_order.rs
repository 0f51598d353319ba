//! What it means for a key type or a comparator to order its values totally, and what
//! follows from it for single comparisons.
//!
//! A comparison is taken as a relation between its arguments and its answers: a
//! comparator handed in by a caller need not answer one way only. The laws below
//! therefore speak of every answer that a comparison can give.

use std::cmp::Ordering;
use vstd::laws_cmp::obeys_cmp;
use vstd::prelude::*;
use vstd::std_specs::cmp::OrdSpec;
use vstd::std_specs::cmp::PartialEqSpec;
use vstd::std_specs::cmp::PartialOrdSpec;

verus! {

/// `o` is an answer of the key type's own comparison for `x` and `y`.
pub open spec fn key_cmp_yields<O: Ord>(x: O, y: O, o: Ordering) -> bool {
    call_ensures(O::cmp, (&x, &y), o)
}

/// Cloning a value of `A` gives that value and no other.
pub open spec fn clone_is_exact<A: Clone>() -> bool {
    forall|x: A, y: A| #[trigger] cloned(x, y) ==> x == y
}

/// Every answer of `f` for a value and itself is `Equal`.
pub open spec fn is_reflexive<V, F: Fn(&V, &V) -> Ordering>(f: F) -> bool {
    forall|x: V, o: Ordering| #[trigger] call_ensures(f, (&x, &x), o) ==> o == Ordering::Equal
}

/// `f` answers `Greater` for a pair exactly when it answers `Less` for the pair turned round.
pub open spec fn is_antisymmetric<V, F: Fn(&V, &V) -> Ordering>(f: F) -> bool {
    forall|x: V, y: V, xy: Ordering, yx: Ordering|
        #[trigger] call_ensures(f, (&x, &y), xy) && #[trigger] call_ensures(f, (&y, &x), yx) ==> (xy
            == Ordering::Greater <==> yx == Ordering::Less)
}

/// Where `f` puts `x` no higher than `y` and `y` no higher than `z`, it puts `x` no
/// higher than `z`.
pub open spec fn is_transitive<V, F: Fn(&V, &V) -> Ordering>(f: F) -> bool {
    forall|x: V, y: V, z: V, xy: Ordering, yz: Ordering, xz: Ordering|
        #[trigger] call_ensures(f, (&x, &y), xy) && #[trigger] call_ensures(f, (&y, &z), yz)
            && #[trigger] call_ensures(f, (&x, &z), xz) && xy != Ordering::Greater && yz
            != Ordering::Greater ==> xz != Ordering::Greater
}

/// Under a lawful key order the comparison has one answer for each pair of keys: the
/// one its model gives.
pub proof fn lemma_key_cmp_answer<O: Ord>(x: O, y: O, o: Ordering)
    requires
        obeys_cmp::<O>(),
        key_cmp_yields(x, y, o),
    ensures
        o == x.cmp_spec(&y),
{
    reveal(vstd::laws_cmp::obeys_cmp_ord);
}

/// Under a lawful key order a key compares equal to itself.
pub proof fn lemma_key_reflexive<O: Ord>(x: O)
    requires
        obeys_cmp::<O>(),
    ensures
        x.cmp_spec(&x) == Ordering::Equal,
{
    reveal(vstd::laws_cmp::obeys_cmp_ord);
    reveal(vstd::laws_cmp::obeys_partial_cmp_spec_properties);
    assert(x.partial_cmp_spec(&x) == Some(x.cmp_spec(&x)));
}

/// Under a lawful key order one key is greater than another exactly when the other is
/// less than it.
pub proof fn lemma_key_antisymmetric<O: Ord>(x: O, y: O)
    requires
        obeys_cmp::<O>(),
    ensures
        x.cmp_spec(&y) == Ordering::Greater <==> y.cmp_spec(&x) == Ordering::Less,
{
    reveal(vstd::laws_cmp::obeys_cmp_ord);
    reveal(vstd::laws_cmp::obeys_partial_cmp_spec_properties);
    assert(x.partial_cmp_spec(&y) == Some(x.cmp_spec(&y)));
    assert(y.partial_cmp_spec(&x) == Some(y.cmp_spec(&x)));
}

/// Under a lawful key order "not greater than" carries over a middle key.
pub proof fn lemma_key_transitive<O: Ord>(x: O, y: O, z: O)
    requires
        obeys_cmp::<O>(),
        x.cmp_spec(&y) != Ordering::Greater,
        y.cmp_spec(&z) != Ordering::Greater,
    ensures
        x.cmp_spec(&z) != Ordering::Greater,
{
    reveal(vstd::laws_cmp::obeys_cmp_ord);
    reveal(vstd::laws_cmp::obeys_cmp_partial_ord);
    reveal(vstd::laws_cmp::obeys_partial_cmp_spec_properties);
    reveal(vstd::laws_eq::obeys_eq_spec_properties);
    assert(x.partial_cmp_spec(&y) == Some(x.cmp_spec(&y)));
    assert(y.partial_cmp_spec(&z) == Some(y.cmp_spec(&z)));
    assert(x.partial_cmp_spec(&z) == Some(x.cmp_spec(&z)));
    assert(z.partial_cmp_spec(&x) == Some(z.cmp_spec(&x)));
    assert(z.partial_cmp_spec(&y) == Some(z.cmp_spec(&y)));
    assert(y.partial_cmp_spec(&x) == Some(y.cmp_spec(&x)));
    if x.cmp_spec(&z) == Ordering::Greater {
        // then z < x, and with x <= y and y <= z the order would close a circle
        assert(z.partial_cmp_spec(&x) == Some(Ordering::Less));
        if x.cmp_spec(&y) == Ordering::Less {
            assert(z.partial_cmp_spec(&y) == Some(Ordering::Less));
            assert(y.partial_cmp_spec(&z) == Some(Ordering::Greater));
        } else {
            assert(x.eq_spec(&y));
            if y.cmp_spec(&z) == Ordering::Less {
                assert(y.partial_cmp_spec(&x) == Some(Ordering::Less));
                assert(x.partial_cmp_spec(&y) == Some(Ordering::Greater));
            } else {
                assert(y.eq_spec(&z));
                assert(x.eq_spec(&z));
            }
        }
    }
}

} // verus!

//! An adapter that orders any value by a comparator handed in with it.

use crate::total_order::clone_is_exact;
use crate::total_order::is_antisymmetric;
use crate::total_order::is_reflexive;
use crate::total_order::is_transitive;
use std::cmp::Ordering;
use vstd::prelude::*;

verus! {

/// A value of any type together with the function that compares it with others.
///
/// Comparing calls the comparator of the left-hand adapter on the two values, anew
/// each time. That the comparator orders the values totally is the caller's part:
/// the adapter passes its answers on as they come.
pub struct OrderBy<V, F> {
    val: V,
    cmp_fn: F,
}

impl<V, F> OrderBy<V, F> {
    /// The wrapped value.
    pub closed spec fn value(self) -> V {
        self.val
    }

    /// The comparator that decides the order.
    pub closed spec fn comparator(self) -> F {
        self.cmp_fn
    }

    /// The comparator of `self` may be called on the values of `self` and `other`.
    pub open spec fn comparable(self, other: Self) -> bool where F: Fn(&V, &V) -> Ordering {
        call_requires(self.comparator(), (&self.value(), &other.value()))
    }

    /// `o` is an answer of the comparator of `self` for the values of `self` and `other`.
    pub open spec fn cmp_yields(self, other: Self, o: Ordering) -> bool where
        F: Fn(&V, &V) -> Ordering,
     {
        call_ensures(self.comparator(), (&self.value(), &other.value()), o)
    }

    /// Wraps `val` and orders it by `cmp_fn`.
    #[inline]
    pub fn new(val: V, cmp_fn: F) -> (r: Self) where F: Fn(&V, &V) -> Ordering
        ensures
            r.value() == val,
            r.comparator() == cmp_fn,
    {
        Self { val, cmp_fn }
    }

    /// Gives the value back and drops the comparator.
    #[inline]
    pub fn into_inner(self) -> (r: V)
        ensures
            r == self.value(),
    {
        self.val
    }

    /// Asks the comparator how the value of `self` stands to that of `other`. There is
    /// always an answer.
    #[inline]
    pub fn partial_cmp(&self, other: &Self) -> (r: Option<Ordering>) where
        F: Fn(&V, &V) -> Ordering,

        requires
            self.comparable(*other),
        ensures
            r is Some,
            self.cmp_yields(*other, r->0),
    {
        Some((self.cmp_fn)(&self.val, &other.val))
    }

    /// Compares two adapters by the comparator of the first.
    #[inline]
    pub fn cmp(&self, other: &Self) -> (r: Ordering) where F: Fn(&V, &V) -> Ordering
        requires
            self.comparable(*other),
        ensures
            self.cmp_yields(*other, r),
    {
        self.partial_cmp(other).unwrap()
    }

    /// Two adapters are equal when the comparator answers `Equal`, whether or not the
    /// values are the same.
    #[inline]
    pub fn eq(&self, other: &Self) -> (r: bool) where F: Fn(&V, &V) -> Ordering
        requires
            self.comparable(*other),
        ensures
            exists|o: Ordering| #[trigger] self.cmp_yields(*other, o) && r == (o == Ordering::Equal),
    {
        match self.partial_cmp(other) {
            Some(Ordering::Equal) => true,
            _ => false,
        }
    }

    /// Under a reflexive comparator every adapter is equal to itself.
    pub proof fn lemma_cmp_reflexive(a: Self, o: Ordering) where F: Fn(&V, &V) -> Ordering
        requires
            is_reflexive(a.comparator()),
            a.cmp_yields(a, o),
        ensures
            o == Ordering::Equal,
    {
    }

    /// Under one antisymmetric comparator an adapter is greater than another exactly
    /// when the other is less than it.
    pub proof fn lemma_cmp_antisymmetric(a: Self, b: Self, ab: Ordering, ba: Ordering) where
        F: Fn(&V, &V) -> Ordering,

        requires
            a.comparator() == b.comparator(),
            is_antisymmetric(a.comparator()),
            a.cmp_yields(b, ab),
            b.cmp_yields(a, ba),
        ensures
            ab == Ordering::Greater <==> ba == Ordering::Less,
    {
    }

    /// Under one transitive comparator "not greater than" carries over a middle adapter.
    pub proof fn lemma_cmp_transitive(
        a: Self,
        b: Self,
        c: Self,
        ab: Ordering,
        bc: Ordering,
        ac: Ordering,
    ) where F: Fn(&V, &V) -> Ordering
        requires
            a.comparator() == b.comparator(),
            is_transitive(a.comparator()),
            a.cmp_yields(b, ab),
            b.cmp_yields(c, bc),
            a.cmp_yields(c, ac),
            ab != Ordering::Greater,
            bc != Ordering::Greater,
        ensures
            ac != Ordering::Greater,
    {
    }

    /// Whatever `new` wrapped, `into_inner` hands back, for every comparator.
    pub proof fn lemma_into_inner_of_new(val: V, cmp_fn: F, made: Self, out: V) where
        F: Fn(&V, &V) -> Ordering,

        requires
            call_ensures(Self::new, (val, cmp_fn), made),
            call_ensures(Self::into_inner, (made,), out),
        ensures
            out == val,
    {
    }
}

impl<V: Clone, F: Clone> Clone for OrderBy<V, F> {
    /// Clones the value and the comparator, each by its own `clone`.
    #[inline]
    fn clone(&self) -> (r: Self)
        ensures
            cloned(self.value(), r.value()),
            cloned(self.comparator(), r.comparator()),
    {
        Self { val: self.val.clone(), cmp_fn: self.cmp_fn.clone() }
    }
}

impl<V: Copy, F: Copy> Copy for OrderBy<V, F> {}

impl<V: Clone, F: Clone> OrderBy<V, F> {
    /// A clone compares equal to the adapter it was made from, and the adapter to its
    /// clone, where cloning changes neither a value nor the comparator and the
    /// comparator is reflexive.
    pub proof fn lemma_clone_compares_equal(a: Self, b: Self, ab: Ordering, ba: Ordering) where
        F: Fn(&V, &V) -> Ordering,

        requires
            clone_is_exact::<V>(),
            clone_is_exact::<F>(),
            is_reflexive(a.comparator()),
            call_ensures(Self::clone, (&a,), b),
            a.cmp_yields(b, ab),
            b.cmp_yields(a, ba),
        ensures
            ab == Ordering::Equal,
            ba == Ordering::Equal,
    {
        assert(cloned(a.value(), b.value()));
        assert(cloned(a.comparator(), b.comparator()));
    }
}

} // verus!

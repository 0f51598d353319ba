//! An adapter that orders any value by a `u32` score attached to it.

use std::cmp::Ordering;
use vstd::prelude::*;
use vstd::std_specs::cmp::PartialEqSpec;
use vstd::std_specs::cmp::PartialOrdSpec;

verus! {

/// The order of two scores: the usual order of the natural numbers.
pub open spec fn order_of(a: u32, b: u32) -> Ordering {
    if a < b {
        Ordering::Less
    } else if a == b {
        Ordering::Equal
    } else {
        Ordering::Greater
    }
}

/// A value of any type together with the score it is ordered by.
///
/// Two of them compare as their scores do. The values take no part in
/// it and need neither an order nor an equality of their own.
pub struct OrderVal<T> {
    ord: u32,
    val: T,
}

impl<T> OrderVal<T> {
    /// The wrapped value.
    pub closed spec fn value(self) -> T {
        self.val
    }

    /// The score that decides the order.
    pub closed spec fn key(self) -> u32 {
        self.ord
    }

    /// How `self` stands to `other`: as the score of the one to the score of the other.
    pub open spec fn ordering(self, other: Self) -> Ordering {
        order_of(self.key(), other.key())
    }

    /// Wraps `val` and gives it the score `ord`.
    #[inline]
    pub fn new(val: T, ord: u32) -> (r: Self)
        ensures
            r.value() == val,
            r.key() == ord,
    {
        Self { ord, val }
    }

    /// Gives the value back and drops the score.
    #[inline]
    pub fn into_inner(self) -> (r: T)
        ensures
            r == self.value(),
    {
        self.val
    }

    /// The score.
    #[inline]
    pub fn ord(&self) -> (r: u32)
        ensures
            r == self.key(),
    {
        self.ord
    }

    /// Compares two adapters by their scores alone.
    #[inline]
    pub fn cmp(&self, other: &Self) -> (r: Ordering)
        ensures
            r == self.ordering(*other),
    {
        self.ord.cmp(&other.ord)
    }

    /// Every adapter is equal to itself in the order.
    pub proof fn lemma_cmp_reflexive(a: Self)
        ensures
            a.ordering(a) == Ordering::Equal,
    {
    }

    /// One adapter is greater than another exactly when the other is less than it.
    pub proof fn lemma_cmp_antisymmetric(a: Self, b: Self)
        ensures
            a.ordering(b) == Ordering::Greater <==> b.ordering(a) == Ordering::Less,
    {
    }

    /// "Not greater than" carries over a middle adapter.
    pub proof fn lemma_cmp_transitive(a: Self, b: Self, c: Self)
        requires
            a.ordering(b) != Ordering::Greater,
            b.ordering(c) != Ordering::Greater,
        ensures
            a.ordering(c) != Ordering::Greater,
    {
    }

    /// Adapters are equal exactly when their scores are, whatever values they wrap.
    pub proof fn lemma_eq_ignores_value(a: Self, b: Self)
        ensures
            a.eq_spec(&b) <==> a.key() == b.key(),
            a.eq_spec(&b) <==> a.ordering(b) == Ordering::Equal,
            a.partial_cmp_spec(&b) == Some(a.ordering(b)),
    {
    }

    /// Whatever `new` wrapped, `into_inner` hands back, for every score.
    pub proof fn lemma_into_inner_of_new(val: T, ord: u32, made: Self, out: T)
        requires
            call_ensures(Self::new, (val, ord), made),
            call_ensures(Self::into_inner, (made,), out),
        ensures
            out == val,
    {
    }
}

impl<T> PartialEq for OrderVal<T> {
    #[inline]
    fn eq(&self, other: &Self) -> (r: bool) {
        match self.cmp(other) {
            Ordering::Equal => true,
            _ => false,
        }
    }
}

impl<T> vstd::std_specs::cmp::PartialEqSpecImpl for OrderVal<T> {
    open spec fn obeys_eq_spec() -> bool {
        true
    }

    open spec fn eq_spec(&self, other: &Self) -> bool {
        self.key() == other.key()
    }
}

impl<T> Eq for OrderVal<T> {}

impl<T> PartialOrd for OrderVal<T> {
    #[inline]
    fn partial_cmp(&self, other: &Self) -> (r: Option<Ordering>) {
        Some(self.cmp(other))
    }
}

impl<T> vstd::std_specs::cmp::PartialOrdSpecImpl for OrderVal<T> {
    open spec fn obeys_partial_cmp_spec() -> bool {
        true
    }

    open spec fn partial_cmp_spec(&self, other: &Self) -> Option<Ordering> {
        Some(order_of(self.key(), other.key()))
    }
}

} // verus!

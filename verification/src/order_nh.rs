//! An adapter that orders any value by a key of another type, and lets the key change
//! while the value stays.

use std::borrow::Borrow;
use std::cmp::Ordering;
use std::hash::Hash;
use std::hash::Hasher;
use std::ops::Add;
use std::ops::Div;
use std::ops::Mul;
use std::ops::Sub;
use crate::total_order::clone_is_exact;
use crate::total_order::key_cmp_yields;
use crate::total_order::lemma_key_antisymmetric;
use crate::total_order::lemma_key_cmp_answer;
use crate::total_order::lemma_key_reflexive;
use crate::total_order::lemma_key_transitive;
use vstd::laws_cmp::obeys_cmp;
use vstd::prelude::*;
use vstd::std_specs::cmp::OrdSpec;
use vstd::std_specs::cmp::PartialEqSpec;
use vstd::std_specs::cmp::PartialOrdSpec;
use vstd::std_specs::ops::AddSpec;
use vstd::std_specs::ops::DivSpec;
use vstd::std_specs::ops::MulSpec;
use vstd::std_specs::ops::SubSpec;

verus! {

/// A value of any type together with the key it is ordered by.
///
/// Two of them compare as their keys do under the key type's own order. The key
/// can be replaced or adjusted in place; the value is hashed alone, so that an
/// adapter keeps its hash while its key moves.
pub struct OrderVal<T, O: Ord> {
    ord: O,
    val: T,
}

impl<T, O: Ord> OrderVal<T, O> {
    /// The wrapped value.
    pub closed spec fn value(self) -> T {
        self.val
    }

    /// The key that decides the order.
    pub closed spec fn key(self) -> O {
        self.ord
    }

    /// `o` is an answer of the key type's comparison for the keys of `self` and `other`.
    pub open spec fn cmp_yields(self, other: Self, o: Ordering) -> bool {
        key_cmp_yields(self.key(), other.key(), o)
    }

    /// How `self` stands to `other` where the key type's comparison follows its model.
    pub open spec fn ordering(self, other: Self) -> Ordering {
        self.key().cmp_spec(&other.key())
    }

    /// Wraps `val` and orders it by `ord`.
    #[inline]
    pub fn new(val: T, ord: O) -> (r: Self)
        ensures
            r.value() == val,
            r.key() == ord,
    {
        Self { ord, val }
    }

    /// Gives the value back and drops the key.
    #[inline]
    pub fn into_inner(self) -> (r: T)
        ensures
            r == self.value(),
    {
        self.val
    }

    /// Lends the value.
    #[inline]
    pub fn inner(&self) -> (r: &T)
        ensures
            *r == self.value(),
    {
        &self.val
    }

    /// Lends the key.
    #[inline]
    pub fn ord(&self) -> (r: &O)
        ensures
            *r == self.key(),
    {
        &self.ord
    }

    /// Puts `ord` in the key's place. The value is not touched, and nothing that
    /// holds the adapter is told.
    #[inline]
    pub fn set_ord(&mut self, ord: O)
        ensures
            final(self).key() == ord,
            final(self).value() == old(self).value(),
    {
        self.ord = ord;
    }

    /// Compares two adapters by their keys alone.
    #[inline]
    pub fn cmp(&self, other: &Self) -> (r: Ordering)
        ensures
            self.cmp_yields(*other, r),
            O::obeys_cmp_spec() ==> r == self.ordering(*other),
    {
        self.ord.cmp(&other.ord)
    }

    /// Adds `rhs` to the key and leaves the value alone.
    #[inline]
    pub fn add_assign(&mut self, rhs: O) where O: Add<O, Output = O> + Copy
        requires
            old(self).key().add_req(rhs),
        ensures
            final(self).value() == old(self).value(),
            call_ensures(O::add, (old(self).key(), rhs), final(self).key()),
            O::obeys_add_spec() ==> final(self).key() == old(self).key().add_spec(rhs),
    {
        self.ord = self.ord + rhs;
    }

    /// Takes `rhs` from the key and leaves the value alone.
    #[inline]
    pub fn sub_assign(&mut self, rhs: O) where O: Sub<O, Output = O> + Copy
        requires
            old(self).key().sub_req(rhs),
        ensures
            final(self).value() == old(self).value(),
            call_ensures(O::sub, (old(self).key(), rhs), final(self).key()),
            O::obeys_sub_spec() ==> final(self).key() == old(self).key().sub_spec(rhs),
    {
        self.ord = self.ord - rhs;
    }

    /// Divides the key by `rhs` and leaves the value alone.
    #[inline]
    pub fn div_assign(&mut self, rhs: O) where O: Div<O, Output = O> + Copy
        requires
            old(self).key().div_req(rhs),
        ensures
            final(self).value() == old(self).value(),
            call_ensures(O::div, (old(self).key(), rhs), final(self).key()),
            O::obeys_div_spec() ==> final(self).key() == old(self).key().div_spec(rhs),
    {
        self.ord = self.ord / rhs;
    }

    /// Multiplies the key by `rhs` and leaves the value alone.
    #[inline]
    pub fn mul_assign(&mut self, rhs: O) where O: Mul<O, Output = O> + Copy
        requires
            old(self).key().mul_req(rhs),
        ensures
            final(self).value() == old(self).value(),
            call_ensures(O::mul, (old(self).key(), rhs), final(self).key()),
            O::obeys_mul_spec() ==> final(self).key() == old(self).key().mul_spec(rhs),
    {
        self.ord = self.ord * rhs;
    }
}

impl<T, O: Ord> OrderVal<T, O> {
    /// Under a lawful key order every adapter is equal to itself.
    pub proof fn lemma_cmp_reflexive(a: Self, o: Ordering)
        requires
            obeys_cmp::<O>(),
            a.cmp_yields(a, o),
        ensures
            o == Ordering::Equal,
    {
        lemma_key_cmp_answer(a.key(), a.key(), o);
        lemma_key_reflexive(a.key());
    }

    /// Under a lawful key order one adapter is greater than another exactly when the
    /// other is less than it.
    pub proof fn lemma_cmp_antisymmetric(a: Self, b: Self, ab: Ordering, ba: Ordering)
        requires
            obeys_cmp::<O>(),
            a.cmp_yields(b, ab),
            b.cmp_yields(a, ba),
        ensures
            ab == Ordering::Greater <==> ba == Ordering::Less,
    {
        lemma_key_cmp_answer(a.key(), b.key(), ab);
        lemma_key_cmp_answer(b.key(), a.key(), ba);
        lemma_key_antisymmetric(a.key(), b.key());
    }

    /// Under a lawful key order "not greater than" carries over a middle adapter.
    pub proof fn lemma_cmp_transitive(
        a: Self,
        b: Self,
        c: Self,
        ab: Ordering,
        bc: Ordering,
        ac: Ordering,
    )
        requires
            obeys_cmp::<O>(),
            a.cmp_yields(b, ab),
            b.cmp_yields(c, bc),
            a.cmp_yields(c, ac),
            ab != Ordering::Greater,
            bc != Ordering::Greater,
        ensures
            ac != Ordering::Greater,
    {
        lemma_key_cmp_answer(a.key(), b.key(), ab);
        lemma_key_cmp_answer(b.key(), c.key(), bc);
        lemma_key_cmp_answer(a.key(), c.key(), ac);
        lemma_key_transitive(a.key(), b.key(), c.key());
    }

    /// Under a lawful key order adapters with the same key are equal, whatever
    /// values they wrap.
    pub proof fn lemma_eq_ignores_value(a: Self, b: Self)
        requires
            obeys_cmp::<O>(),
            a.key() == b.key(),
        ensures
            a.eq_spec(&b),
            a.ordering(b) == Ordering::Equal,
    {
        lemma_key_reflexive(a.key());
    }

    /// Whatever `new` wrapped, `into_inner` hands back, for every key.
    pub proof fn lemma_into_inner_of_new(val: T, ord: O, made: Self, out: T)
        requires
            call_ensures(Self::new, (val, ord), made),
            call_ensures(Self::into_inner, (made,), out),
        ensures
            out == val,
    {
    }
}

impl<T: Clone, O: Ord + Clone> OrderVal<T, O> {
    /// A clone compares equal to the adapter it was made from, where cloning a key
    /// gives the same key and the key order is lawful.
    pub proof fn lemma_clone_compares_equal(a: Self, b: Self, o: Ordering)
        requires
            obeys_cmp::<O>(),
            clone_is_exact::<O>(),
            call_ensures(Self::clone, (&a,), b),
            a.cmp_yields(b, o),
        ensures
            o == Ordering::Equal,
    {
        assert(cloned(a.key(), b.key()));
        Self::lemma_cmp_reflexive(a, o);
    }
}

impl<T, O: Ord> PartialOrd for OrderVal<T, O> {
    #[inline]
    fn partial_cmp(&self, other: &Self) -> (r: Option<Ordering>)
        ensures
            r is Some,
            self.cmp_yields(*other, r->0),
    {
        Some(self.cmp(other))
    }
}

impl<T, O: Ord> vstd::std_specs::cmp::PartialOrdSpecImpl for OrderVal<T, O> {
    open spec fn obeys_partial_cmp_spec() -> bool {
        O::obeys_cmp_spec()
    }

    open spec fn partial_cmp_spec(&self, other: &Self) -> Option<Ordering> {
        Some(self.ordering(*other))
    }
}

impl<T, O: Ord> PartialEq for OrderVal<T, O> {
    #[inline]
    fn eq(&self, other: &Self) -> (r: bool)
        ensures
            exists|o: Ordering| #[trigger] self.cmp_yields(*other, o) && r == (o == Ordering::Equal),
    {
        match self.cmp(other) {
            Ordering::Equal => true,
            _ => false,
        }
    }
}

impl<T, O: Ord> vstd::std_specs::cmp::PartialEqSpecImpl for OrderVal<T, O> {
    open spec fn obeys_eq_spec() -> bool {
        O::obeys_cmp_spec()
    }

    open spec fn eq_spec(&self, other: &Self) -> bool {
        self.ordering(*other) == Ordering::Equal
    }
}

impl<T, O: Ord> Eq for OrderVal<T, O> {}

impl<T: Clone, O: Ord + Clone> Clone for OrderVal<T, O> {
    #[inline]
    fn clone(&self) -> (r: Self)
        ensures
            cloned(self.key(), r.key()),
            cloned(self.value(), r.value()),
    {
        Self { ord: self.ord.clone(), val: self.val.clone() }
    }
}

impl<T: Copy, O: Ord + Copy> Copy for OrderVal<T, O> {}

impl<T, O: Ord> Borrow<T> for OrderVal<T, O> {
    #[inline]
    fn borrow(&self) -> &T
        returns
            &self.value(),
    {
        self.inner()
    }
}

impl<T, O: Ord> AsRef<T> for OrderVal<T, O> {
    #[inline]
    fn as_ref(&self) -> (r: &T)
        ensures
            *r == self.value(),
    {
        self.inner()
    }
}

/// Calls `Hash::hash` of the value's type on `val` and `state`. Nothing is claimed of
/// what the call leaves in `state`: that is the business of the value's type and of
/// the hasher.
#[verifier::external_body]
#[inline]
fn hash_value<T: Hash, H: Hasher>(val: &T, state: &mut H) {
    val.hash(state);
}

impl<T: Hash, O: Hash + Ord> Hash for OrderVal<T, O> {
    /// Feeds the value, and nothing of the key, to `state`.
    #[inline]
    fn hash<H: Hasher>(&self, state: &mut H) {
        hash_value(&self.val, state);
    }
}

} // verus!

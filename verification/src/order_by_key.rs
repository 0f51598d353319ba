//! An adapter that orders any value by a key that a function draws from it.

use crate::total_order::clone_is_exact;
use crate::total_order::key_cmp_yields;
use crate::total_order::lemma_key_antisymmetric;
use crate::total_order::lemma_key_cmp_answer;
use crate::total_order::lemma_key_reflexive;
use crate::total_order::lemma_key_transitive;
use std::cmp::Ordering;
use std::marker::PhantomData;
use vstd::laws_cmp::obeys_cmp;
use vstd::prelude::*;

verus! {

/// A value of any type together with the function that draws its key.
///
/// Comparing draws a key from each side, each with that side's own function and
/// anew each time, and compares the two keys in the key type's own order. The marker
/// field only fixes the key type; it holds nothing.
#[derive(Debug)]
pub struct OrderByKey<V, F, O: Ord> {
    val: V,
    key_fn: F,
    pd: PhantomData<O>,
}

impl<V, F, O: Ord> OrderByKey<V, F, O> {
    /// The wrapped value.
    pub closed spec fn value(self) -> V {
        self.val
    }

    /// The function that draws the key.
    pub closed spec fn key_fn(self) -> F {
        self.key_fn
    }
}

impl<V, F, O: Ord> OrderByKey<V, F, O> where F: Fn(&V) -> O {
    /// The key function may be called on the value.
    pub open spec fn has_key(self) -> bool {
        call_requires(self.key_fn(), (&self.value(),))
    }

    /// `k` is a key that the key function draws from the value.
    pub open spec fn key_yields(self, k: O) -> bool {
        call_ensures(self.key_fn(), (&self.value(),), k)
    }

    /// The key function draws one key from the value and no other.
    pub open spec fn key_is_unique(self) -> bool {
        forall|j: O, k: O| #[trigger] self.key_yields(j) && #[trigger] self.key_yields(k) ==> j == k
    }

    /// `o` is an answer of the key type's comparison for a key of `self` and a key of
    /// `other`.
    pub open spec fn cmp_yields(self, other: Self, o: Ordering) -> bool {
        exists|j: O, k: O|
            #![trigger self.key_yields(j), other.key_yields(k)]
            self.key_yields(j) && other.key_yields(k) && key_cmp_yields(j, k, o)
    }

    /// Wraps `val` and orders it by the key that `key_fn` draws from it.
    #[inline]
    pub fn new(val: V, key_fn: F) -> (r: Self)
        ensures
            r.value() == val,
            r.key_fn() == key_fn,
    {
        Self { val, key_fn, pd: PhantomData }
    }

    /// Gives the value back and drops the key function.
    #[inline]
    pub fn into_inner(self) -> (r: V)
        ensures
            r == self.value(),
    {
        self.val
    }

    /// Draws both keys and compares them. There is always an answer.
    #[inline]
    pub fn partial_cmp(&self, other: &Self) -> (r: Option<Ordering>)
        requires
            self.has_key(),
            other.has_key(),
        ensures
            r is Some,
            self.cmp_yields(*other, r->0),
    {
        let self_k = (self.key_fn)(&self.val);
        let other_k = (other.key_fn)(&other.val);
        let o = self_k.cmp(&other_k);
        assert(self.key_yields(self_k) && other.key_yields(other_k));
        Some(o)
    }

    /// Compares two adapters by the keys drawn from their values.
    #[inline]
    pub fn cmp(&self, other: &Self) -> (r: Ordering)
        requires
            self.has_key(),
            other.has_key(),
        ensures
            self.cmp_yields(*other, r),
    {
        self.partial_cmp(other).unwrap()
    }

    /// Two adapters are equal when their keys compare `Equal`, whether or not the
    /// values are the same.
    #[inline]
    pub fn eq(&self, other: &Self) -> (r: bool)
        requires
            self.has_key(),
            other.has_key(),
        ensures
            exists|o: Ordering| #[trigger] self.cmp_yields(*other, o) && r == (o == Ordering::Equal),
    {
        match self.partial_cmp(other) {
            Some(Ordering::Equal) => true,
            _ => false,
        }
    }

    /// Under a lawful key order an adapter with one key is equal to itself.
    pub proof fn lemma_cmp_reflexive(a: Self, o: Ordering)
        requires
            obeys_cmp::<O>(),
            a.key_is_unique(),
            a.cmp_yields(a, o),
        ensures
            o == Ordering::Equal,
    {
        let (j, k) = choose|j: O, k: O|
            #![trigger a.key_yields(j), a.key_yields(k)]
            a.key_yields(j) && a.key_yields(k) && key_cmp_yields(j, k, o);
        lemma_key_cmp_answer(j, k, o);
        lemma_key_reflexive(j);
    }

    /// Under a lawful key order, and with one key each, an adapter is greater than
    /// another exactly when the other is less than it.
    pub proof fn lemma_cmp_antisymmetric(a: Self, b: Self, ab: Ordering, ba: Ordering)
        requires
            obeys_cmp::<O>(),
            a.key_is_unique(),
            b.key_is_unique(),
            a.cmp_yields(b, ab),
            b.cmp_yields(a, ba),
        ensures
            ab == Ordering::Greater <==> ba == Ordering::Less,
    {
        let (j, k) = choose|j: O, k: O|
            #![trigger a.key_yields(j), b.key_yields(k)]
            a.key_yields(j) && b.key_yields(k) && key_cmp_yields(j, k, ab);
        let (k2, j2) = choose|k2: O, j2: O|
            #![trigger b.key_yields(k2), a.key_yields(j2)]
            b.key_yields(k2) && a.key_yields(j2) && key_cmp_yields(k2, j2, ba);
        lemma_key_cmp_answer(j, k, ab);
        lemma_key_cmp_answer(k, j, ba);
        lemma_key_antisymmetric(j, k);
    }

    /// Under a lawful key order, and with one key each, "not greater than" carries
    /// over a middle adapter.
    pub proof fn lemma_cmp_transitive(
        a: Self,
        b: Self,
        c: Self,
        ab: Ordering,
        bc: Ordering,
        ac: Ordering,
    )
        requires
            obeys_cmp::<O>(),
            a.key_is_unique(),
            b.key_is_unique(),
            c.key_is_unique(),
            a.cmp_yields(b, ab),
            b.cmp_yields(c, bc),
            a.cmp_yields(c, ac),
            ab != Ordering::Greater,
            bc != Ordering::Greater,
        ensures
            ac != Ordering::Greater,
    {
        let (j, k) = choose|j: O, k: O|
            #![trigger a.key_yields(j), b.key_yields(k)]
            a.key_yields(j) && b.key_yields(k) && key_cmp_yields(j, k, ab);
        let (k2, l) = choose|k2: O, l: O|
            #![trigger b.key_yields(k2), c.key_yields(l)]
            b.key_yields(k2) && c.key_yields(l) && key_cmp_yields(k2, l, bc);
        let (j2, l2) = choose|j2: O, l2: O|
            #![trigger a.key_yields(j2), c.key_yields(l2)]
            a.key_yields(j2) && c.key_yields(l2) && key_cmp_yields(j2, l2, ac);
        lemma_key_cmp_answer(j, k, ab);
        lemma_key_cmp_answer(k, l, bc);
        lemma_key_cmp_answer(j, l, ac);
        lemma_key_transitive(j, k, l);
    }

    /// Whatever `new` wrapped, `into_inner` hands back, for every key function.
    pub proof fn lemma_into_inner_of_new(val: V, key_fn: F, made: Self, out: V)
        requires
            call_ensures(Self::new, (val, key_fn), made),
            call_ensures(Self::into_inner, (made,), out),
        ensures
            out == val,
    {
    }
}

impl<V: Clone, F: Clone, O: Ord + Clone> Clone for OrderByKey<V, F, O> {
    /// Clones the value and the key function, each by its own `clone`.
    #[inline]
    fn clone(&self) -> (r: Self)
        ensures
            cloned(self.value(), r.value()),
            cloned(self.key_fn(), r.key_fn()),
    {
        Self { val: self.val.clone(), pd: PhantomData, key_fn: self.key_fn.clone() }
    }
}

impl<V: Copy, F: Copy, O: Ord + Copy> Copy for OrderByKey<V, F, O> {}

impl<V: Clone, F: Clone, O: Ord + Clone> OrderByKey<V, F, O> where F: Fn(&V) -> O {
    /// A clone compares equal to the adapter it was made from, where cloning changes
    /// neither a value nor the key function, the key is one and the key order lawful.
    pub proof fn lemma_clone_compares_equal(a: Self, b: Self, o: Ordering)
        requires
            obeys_cmp::<O>(),
            clone_is_exact::<V>(),
            clone_is_exact::<F>(),
            a.key_is_unique(),
            call_ensures(Self::clone, (&a,), b),
            a.cmp_yields(b, o),
        ensures
            o == Ordering::Equal,
    {
        assert(cloned(a.value(), b.value()));
        assert(cloned(a.key_fn(), b.key_fn()));
        Self::lemma_cmp_reflexive(a, o);
    }
}

} // verus!

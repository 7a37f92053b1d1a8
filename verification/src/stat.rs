//! The aggregation engine: the marker trait that binds a stat kind to its
//! raw numeric type, the per-slot store operations, and the aggregator
//! family holding one base value and one collection per modifier category.

use vstd::prelude::*;
use vstd::seq_lib::lemma_multiset_commutative;
use crate::modifier::Modifier;
use crate::pipeline::{Pipeline1, Pipeline2, Pipeline3, Pipeline4, Pipeline5, Pipeline6, Pipeline7, Pipeline8};
use crate::raw::RawValue;

verus! {

/// A kind of stat. Purely a compile-time tag binding the kind to its raw
/// numeric representation.
pub trait StatMarker: Sized + Clone + Copy {
    /// The numeric type this kind of stat is measured in.
    type Raw: RawValue;
}

/// Swap-removal reorders a collection but only ever removes the one
/// element: the result equals the original minus that element, as a
/// multiset.
pub proof fn lemma_swap_remove_multiset<A>(s: Seq<A>, i: int)
    requires
        0 <= i < s.len(),
    ensures
        s.update(i, s.last()).drop_last().to_multiset() == s.to_multiset().remove(s[i]),
{
    broadcast use vstd::seq_lib::group_to_multiset_ensures;

    let n = s.len() as int;
    let t = s.update(i, s.last()).drop_last();
    if i == n - 1 {
        assert(t =~= s.remove(i));
    } else {
        let a = s.subrange(0, i);
        let b = s.subrange(i + 1, n - 1);
        let last = seq![s.last()];
        assert(t =~= a + last + b);
        assert(s.remove(i) =~= a + (b + last));
        lemma_multiset_commutative(a + last, b);
        lemma_multiset_commutative(a, last);
        lemma_multiset_commutative(a, b + last);
        lemma_multiset_commutative(b, last);
        assert(t.to_multiset() =~= s.remove(i).to_multiset());
    }
    assert(s.remove(i).to_multiset() == s.to_multiset().remove(s[i]));
}

/// True if and only if a modifier equal to `value` is stored in the slot.
pub fn slot_contains<M: Modifier>(v: &Vec<M>, value: M) -> (r: bool)
    ensures
        r == v@.contains(value),
{
    let n = v.len();
    let mut i: usize = 0;
    while i < n
        invariant
            n == v@.len(),
            i <= n,
            forall|j: int| 0 <= j < i ==> v@[j] != value,
        decreases n - i,
    {
        if v[i].eq_mod(&value) {
            return true;
        }
        i = i + 1;
    }
    false
}

/// Removes one occurrence equal to `value` from the slot by swap-removal;
/// a no-op, not an error, if no equal modifier is stored.
pub fn slot_remove_one<M: Modifier>(v: &mut Vec<M>, value: M)
    ensures
        old(v)@.contains(value) ==> exists|i: int|
            0 <= i < old(v)@.len() && old(v)@[i] == value && final(v)@ == old(v)@.update(
                i,
                old(v)@.last(),
            ).drop_last(),
        old(v)@.contains(value) ==> final(v)@.to_multiset() == old(v)@.to_multiset().remove(value),
        !old(v)@.contains(value) ==> final(v)@ == old(v)@,
{
    let n = v.len();
    let mut i: usize = 0;
    while i < n
        invariant
            v@ == old(v)@,
            n == v@.len(),
            i <= n,
            forall|j: int| 0 <= j < i ==> v@[j] != value,
        decreases n - i,
    {
        if v[i].eq_mod(&value) {
            proof {
                lemma_swap_remove_multiset(v@, i as int);
            }
            let _ = v.swap_remove(i);
            return ;
        }
        i = i + 1;
    }
}

/// Copies a slot's contents out, for enumeration when the slot itself
/// cannot be borrowed.
pub fn slot_snapshot<M: Modifier>(v: &Vec<M>) -> (r: Vec<M>)
    ensures
        r@ == v@,
{
    let n = v.len();
    let mut out: Vec<M> = Vec::new();
    let mut i: usize = 0;
    while i < n
        invariant
            n == v@.len(),
            i <= n,
            out@ == v@.take(i as int),
        decreases n - i,
    {
        proof {
            assert(v@.take(i + 1).drop_last() =~= v@.take(i as int));
        }
        out.push(v[i]);
        i = i + 1;
    }
    proof {
        assert(v@.take(n as int) =~= v@);
    }
    out
}

/// An aggregator over one modifier category: one base value, one collection of modifiers,
/// and the pipeline that folds them together. The base and the pipeline
/// are fixed at construction; the only mutable state is category
/// membership.
pub struct Stat1<Marker, M1, F> where
    Marker: StatMarker,
    M1: Modifier,
    F: Pipeline1<Marker, M1>,
 {
    base: Marker::Raw,
    m1: Vec<M1>,
    f: F,
}

impl<Marker, M1, F> Stat1<Marker, M1, F> where
    Marker: StatMarker,
    M1: Modifier,
    F: Pipeline1<Marker, M1>,
 {
    /// The immutable base value.
    pub closed spec fn base_spec(self) -> Marker::Raw {
        self.base
    }

    /// Slot 1's modifiers, in storage order.
    pub closed spec fn m1_spec(self) -> Seq<M1> {
        self.m1@
    }

    /// The pipeline supplied at construction.
    pub closed spec fn pipeline_spec(self) -> F {
        self.f
    }

    /// The value `get` recomputes: the pipeline applied to the base and
    /// the current collections.
    pub open spec fn value_spec(self) -> Marker::Raw {
        self.pipeline_spec().eval_spec(self.base_spec(), self.m1_spec())
    }

    /// Creates an aggregator with no modifiers.
    pub fn new(base: Marker::Raw, f: F) -> (r: Self)
        ensures
            r.base_spec() == base,
            r.pipeline_spec() == f,
            r.m1_spec() == Seq::<M1>::empty(),
    {
        Stat1 { base, m1: Vec::new(), f }
    }

    /// Inserts a modifier into slot 1. Duplicates may coexist and all
    /// contribute.
    pub fn apply_m1(&mut self, value: M1)
        ensures
            final(self).base_spec() == old(self).base_spec(),
            final(self).pipeline_spec() == old(self).pipeline_spec(),
            final(self).m1_spec() == old(self).m1_spec().push(value),
    {
        self.m1.push(value);
    }

    /// Removes one occurrence equal to `value` from slot 1 by
    /// swap-removal; a no-op, not an error, if no equal modifier is
    /// stored.
    pub fn remove_m1(&mut self, value: M1)
        ensures
            final(self).base_spec() == old(self).base_spec(),
            final(self).pipeline_spec() == old(self).pipeline_spec(),
            old(self).m1_spec().contains(value) ==> exists|i: int|
                0 <= i < old(self).m1_spec().len() && old(self).m1_spec()[i] == value
                    && final(self).m1_spec() == old(self).m1_spec().update(
                    i,
                    old(self).m1_spec().last(),
                ).drop_last(),
            old(self).m1_spec().contains(value) ==> final(self).m1_spec().to_multiset() == old(
                self,
            ).m1_spec().to_multiset().remove(value),
            !old(self).m1_spec().contains(value) ==> final(self).m1_spec() == old(
                self,
            ).m1_spec(),
    {
        slot_remove_one(&mut self.m1, value);
    }

    /// True if and only if a modifier equal to `value` is stored in slot
    /// 1.
    pub fn has_m1(&self, value: M1) -> (r: bool)
        ensures
            r == self.m1_spec().contains(value),
    {
        slot_contains(&self.m1, value)
    }

    /// The immutable base value.
    pub fn base(&self) -> (r: Marker::Raw)
        ensures
            r == self.base_spec(),
    {
        self.base
    }

    /// Recomputes the stat from the base and the current collections.
    /// Nothing is cached: every call folds over the stored modifiers.
    pub fn get(&self) -> (r: Marker::Raw)
        ensures
            r == self.value_spec(),
    {
        self.f.eval(self.base, &self.m1)
    }

    /// Read-only view of slot 1 for enumeration.
    pub fn m1(&self) -> (r: &Vec<M1>)
        ensures
            r@ == self.m1_spec(),
    {
        &self.m1
    }

    /// Applying modifiers in either order leaves the computed value the
    /// same: two aggregators with the same base and pipeline whose slots
    /// agree as multisets agree on `get`.
    pub proof fn lemma_order_independent(self, other: Self)
        requires
            self.base_spec() == other.base_spec(),
            self.pipeline_spec() == other.pipeline_spec(),
            self.m1_spec().to_multiset() == other.m1_spec().to_multiset(),
        ensures
            self.value_spec() == other.value_spec(),
    {
        self.pipeline_spec().lemma_eval_permutation(
            self.base_spec(),
            self.m1_spec(),
            other.m1_spec(),
        );
    }

    /// The direct form of order independence for one slot: applying `a`
    /// then `b` to slot 1 yields the same computed value as applying `b`
    /// then `a`.
    pub proof fn lemma_apply_two_commute_m1(self, ab: Self, ba: Self, a: M1, b: M1)
        requires
            ab.base_spec() == self.base_spec(),
            ab.pipeline_spec() == self.pipeline_spec(),
            ba.base_spec() == self.base_spec(),
            ba.pipeline_spec() == self.pipeline_spec(),
            ab.m1_spec() == self.m1_spec().push(a).push(b),
            ba.m1_spec() == self.m1_spec().push(b).push(a),
        ensures
            ab.value_spec() == ba.value_spec(),
    {
        broadcast use vstd::seq_lib::group_to_multiset_ensures;

        assert(ab.m1_spec().to_multiset() =~= ba.m1_spec().to_multiset());
        ab.lemma_order_independent(ba);
    }

    /// Applying a modifier to slot 1 and then removing it returns the
    /// aggregator to its pre-apply state as far as `get` and `has` can
    /// observe.
    pub proof fn lemma_apply_remove_roundtrip_m1(
        self,
        applied: Self,
        removed: Self,
        value: M1,
    )
        requires
            applied.base_spec() == self.base_spec(),
            applied.pipeline_spec() == self.pipeline_spec(),
            applied.m1_spec() == self.m1_spec().push(value),
            removed.base_spec() == applied.base_spec(),
            removed.pipeline_spec() == applied.pipeline_spec(),
            removed.m1_spec().to_multiset() == applied.m1_spec().to_multiset().remove(
                value,
            ),
        ensures
            removed.value_spec() == self.value_spec(),
            forall|x: M1| removed.m1_spec().contains(x) == self.m1_spec().contains(x),
    {
        broadcast use vstd::seq_lib::group_to_multiset_ensures;

        assert(applied.m1_spec().to_multiset() == self.m1_spec().to_multiset().insert(value));
        assert(removed.m1_spec().to_multiset() =~= self.m1_spec().to_multiset());
        self.pipeline_spec().lemma_eval_permutation(
            self.base_spec(),
            removed.m1_spec(),
            self.m1_spec(),
        );
        assert forall|x: M1| removed.m1_spec().contains(x) == self.m1_spec().contains(
            x,
        ) by {
            assert(removed.m1_spec().contains(x) <==> removed.m1_spec().to_multiset().count(x)
                > 0);
            assert(self.m1_spec().contains(x) <==> self.m1_spec().to_multiset().count(x) > 0);
        }
    }

}

/// An aggregator over 2 modifier categories: one base value, one collection per category,
/// and the pipeline that folds them together. The base and the pipeline
/// are fixed at construction; the only mutable state is category
/// membership.
pub struct Stat2<Marker, M1, M2, F> where
    Marker: StatMarker,
    M1: Modifier,
    M2: Modifier,
    F: Pipeline2<Marker, M1, M2>,
 {
    base: Marker::Raw,
    m1: Vec<M1>,
    m2: Vec<M2>,
    f: F,
}

impl<Marker, M1, M2, F> Stat2<Marker, M1, M2, F> where
    Marker: StatMarker,
    M1: Modifier,
    M2: Modifier,
    F: Pipeline2<Marker, M1, M2>,
 {
    /// The immutable base value.
    pub closed spec fn base_spec(self) -> Marker::Raw {
        self.base
    }

    /// Slot 1's modifiers, in storage order.
    pub closed spec fn m1_spec(self) -> Seq<M1> {
        self.m1@
    }

    /// Slot 2's modifiers, in storage order.
    pub closed spec fn m2_spec(self) -> Seq<M2> {
        self.m2@
    }

    /// The pipeline supplied at construction.
    pub closed spec fn pipeline_spec(self) -> F {
        self.f
    }

    /// The value `get` recomputes: the pipeline applied to the base and
    /// the current collections.
    pub open spec fn value_spec(self) -> Marker::Raw {
        self.pipeline_spec().eval_spec(self.base_spec(), self.m1_spec(), self.m2_spec())
    }

    /// Creates an aggregator with no modifiers.
    pub fn new(base: Marker::Raw, f: F) -> (r: Self)
        ensures
            r.base_spec() == base,
            r.pipeline_spec() == f,
            r.m1_spec() == Seq::<M1>::empty(),
            r.m2_spec() == Seq::<M2>::empty(),
    {
        Stat2 { base, m1: Vec::new(), m2: Vec::new(), f }
    }

    /// Inserts a modifier into slot 1. Duplicates may coexist and all
    /// contribute.
    pub fn apply_m1(&mut self, value: M1)
        ensures
            final(self).base_spec() == old(self).base_spec(),
            final(self).pipeline_spec() == old(self).pipeline_spec(),
            final(self).m2_spec() == old(self).m2_spec(),
            final(self).m1_spec() == old(self).m1_spec().push(value),
    {
        self.m1.push(value);
    }

    /// Inserts a modifier into slot 2. Duplicates may coexist and all
    /// contribute.
    pub fn apply_m2(&mut self, value: M2)
        ensures
            final(self).base_spec() == old(self).base_spec(),
            final(self).pipeline_spec() == old(self).pipeline_spec(),
            final(self).m1_spec() == old(self).m1_spec(),
            final(self).m2_spec() == old(self).m2_spec().push(value),
    {
        self.m2.push(value);
    }

    /// Removes one occurrence equal to `value` from slot 1 by
    /// swap-removal; a no-op, not an error, if no equal modifier is
    /// stored.
    pub fn remove_m1(&mut self, value: M1)
        ensures
            final(self).base_spec() == old(self).base_spec(),
            final(self).pipeline_spec() == old(self).pipeline_spec(),
            final(self).m2_spec() == old(self).m2_spec(),
            old(self).m1_spec().contains(value) ==> exists|i: int|
                0 <= i < old(self).m1_spec().len() && old(self).m1_spec()[i] == value
                    && final(self).m1_spec() == old(self).m1_spec().update(
                    i,
                    old(self).m1_spec().last(),
                ).drop_last(),
            old(self).m1_spec().contains(value) ==> final(self).m1_spec().to_multiset() == old(
                self,
            ).m1_spec().to_multiset().remove(value),
            !old(self).m1_spec().contains(value) ==> final(self).m1_spec() == old(
                self,
            ).m1_spec(),
    {
        slot_remove_one(&mut self.m1, value);
    }

    /// Removes one occurrence equal to `value` from slot 2 by
    /// swap-removal; a no-op, not an error, if no equal modifier is
    /// stored.
    pub fn remove_m2(&mut self, value: M2)
        ensures
            final(self).base_spec() == old(self).base_spec(),
            final(self).pipeline_spec() == old(self).pipeline_spec(),
            final(self).m1_spec() == old(self).m1_spec(),
            old(self).m2_spec().contains(value) ==> exists|i: int|
                0 <= i < old(self).m2_spec().len() && old(self).m2_spec()[i] == value
                    && final(self).m2_spec() == old(self).m2_spec().update(
                    i,
                    old(self).m2_spec().last(),
                ).drop_last(),
            old(self).m2_spec().contains(value) ==> final(self).m2_spec().to_multiset() == old(
                self,
            ).m2_spec().to_multiset().remove(value),
            !old(self).m2_spec().contains(value) ==> final(self).m2_spec() == old(
                self,
            ).m2_spec(),
    {
        slot_remove_one(&mut self.m2, value);
    }

    /// True if and only if a modifier equal to `value` is stored in slot
    /// 1.
    pub fn has_m1(&self, value: M1) -> (r: bool)
        ensures
            r == self.m1_spec().contains(value),
    {
        slot_contains(&self.m1, value)
    }

    /// True if and only if a modifier equal to `value` is stored in slot
    /// 2.
    pub fn has_m2(&self, value: M2) -> (r: bool)
        ensures
            r == self.m2_spec().contains(value),
    {
        slot_contains(&self.m2, value)
    }

    /// The immutable base value.
    pub fn base(&self) -> (r: Marker::Raw)
        ensures
            r == self.base_spec(),
    {
        self.base
    }

    /// Recomputes the stat from the base and the current collections.
    /// Nothing is cached: every call folds over the stored modifiers.
    pub fn get(&self) -> (r: Marker::Raw)
        ensures
            r == self.value_spec(),
    {
        self.f.eval(self.base, &self.m1, &self.m2)
    }

    /// Read-only view of slot 1 for enumeration.
    pub fn m1(&self) -> (r: &Vec<M1>)
        ensures
            r@ == self.m1_spec(),
    {
        &self.m1
    }

    /// Read-only view of slot 2 for enumeration.
    pub fn m2(&self) -> (r: &Vec<M2>)
        ensures
            r@ == self.m2_spec(),
    {
        &self.m2
    }

    /// Applying modifiers in either order leaves the computed value the
    /// same: two aggregators with the same base and pipeline whose slots
    /// agree as multisets agree on `get`.
    pub proof fn lemma_order_independent(self, other: Self)
        requires
            self.base_spec() == other.base_spec(),
            self.pipeline_spec() == other.pipeline_spec(),
            self.m1_spec().to_multiset() == other.m1_spec().to_multiset(),
            self.m2_spec().to_multiset() == other.m2_spec().to_multiset(),
        ensures
            self.value_spec() == other.value_spec(),
    {
        self.pipeline_spec().lemma_eval_permutation(
            self.base_spec(),
            self.m1_spec(),
            self.m2_spec(),
            other.m1_spec(),
            other.m2_spec(),
        );
    }

    /// The direct form of order independence for one slot: applying `a`
    /// then `b` to slot 1 yields the same computed value as applying `b`
    /// then `a`.
    pub proof fn lemma_apply_two_commute_m1(self, ab: Self, ba: Self, a: M1, b: M1)
        requires
            ab.base_spec() == self.base_spec(),
            ab.pipeline_spec() == self.pipeline_spec(),
            ba.base_spec() == self.base_spec(),
            ba.pipeline_spec() == self.pipeline_spec(),
            ab.m2_spec() == self.m2_spec(),
            ba.m2_spec() == self.m2_spec(),
            ab.m1_spec() == self.m1_spec().push(a).push(b),
            ba.m1_spec() == self.m1_spec().push(b).push(a),
        ensures
            ab.value_spec() == ba.value_spec(),
    {
        broadcast use vstd::seq_lib::group_to_multiset_ensures;

        assert(ab.m1_spec().to_multiset() =~= ba.m1_spec().to_multiset());
        ab.lemma_order_independent(ba);
    }

    /// Applying a modifier to slot 1 and then removing it returns the
    /// aggregator to its pre-apply state as far as `get` and `has` can
    /// observe.
    pub proof fn lemma_apply_remove_roundtrip_m1(
        self,
        applied: Self,
        removed: Self,
        value: M1,
    )
        requires
            applied.base_spec() == self.base_spec(),
            applied.pipeline_spec() == self.pipeline_spec(),
            applied.m2_spec() == self.m2_spec(),
            applied.m1_spec() == self.m1_spec().push(value),
            removed.base_spec() == applied.base_spec(),
            removed.pipeline_spec() == applied.pipeline_spec(),
            removed.m2_spec() == applied.m2_spec(),
            removed.m1_spec().to_multiset() == applied.m1_spec().to_multiset().remove(
                value,
            ),
        ensures
            removed.value_spec() == self.value_spec(),
            forall|x: M1| removed.m1_spec().contains(x) == self.m1_spec().contains(x),
    {
        broadcast use vstd::seq_lib::group_to_multiset_ensures;

        assert(applied.m1_spec().to_multiset() == self.m1_spec().to_multiset().insert(value));
        assert(removed.m1_spec().to_multiset() =~= self.m1_spec().to_multiset());
        self.pipeline_spec().lemma_eval_permutation(
            self.base_spec(),
            removed.m1_spec(),
            removed.m2_spec(),
            self.m1_spec(),
            self.m2_spec(),
        );
        assert forall|x: M1| removed.m1_spec().contains(x) == self.m1_spec().contains(
            x,
        ) by {
            assert(removed.m1_spec().contains(x) <==> removed.m1_spec().to_multiset().count(x)
                > 0);
            assert(self.m1_spec().contains(x) <==> self.m1_spec().to_multiset().count(x) > 0);
        }
    }

    /// Applying a modifier to slot 2 and then removing it returns the
    /// aggregator to its pre-apply state as far as `get` and `has` can
    /// observe.
    pub proof fn lemma_apply_remove_roundtrip_m2(
        self,
        applied: Self,
        removed: Self,
        value: M2,
    )
        requires
            applied.base_spec() == self.base_spec(),
            applied.pipeline_spec() == self.pipeline_spec(),
            applied.m1_spec() == self.m1_spec(),
            applied.m2_spec() == self.m2_spec().push(value),
            removed.base_spec() == applied.base_spec(),
            removed.pipeline_spec() == applied.pipeline_spec(),
            removed.m1_spec() == applied.m1_spec(),
            removed.m2_spec().to_multiset() == applied.m2_spec().to_multiset().remove(
                value,
            ),
        ensures
            removed.value_spec() == self.value_spec(),
            forall|x: M2| removed.m2_spec().contains(x) == self.m2_spec().contains(x),
    {
        broadcast use vstd::seq_lib::group_to_multiset_ensures;

        assert(applied.m2_spec().to_multiset() == self.m2_spec().to_multiset().insert(value));
        assert(removed.m2_spec().to_multiset() =~= self.m2_spec().to_multiset());
        self.pipeline_spec().lemma_eval_permutation(
            self.base_spec(),
            removed.m1_spec(),
            removed.m2_spec(),
            self.m1_spec(),
            self.m2_spec(),
        );
        assert forall|x: M2| removed.m2_spec().contains(x) == self.m2_spec().contains(
            x,
        ) by {
            assert(removed.m2_spec().contains(x) <==> removed.m2_spec().to_multiset().count(x)
                > 0);
            assert(self.m2_spec().contains(x) <==> self.m2_spec().to_multiset().count(x) > 0);
        }
    }

}

/// An aggregator over 3 modifier categories: one base value, one collection per category,
/// and the pipeline that folds them together. The base and the pipeline
/// are fixed at construction; the only mutable state is category
/// membership.
pub struct Stat3<Marker, M1, M2, M3, F> where
    Marker: StatMarker,
    M1: Modifier,
    M2: Modifier,
    M3: Modifier,
    F: Pipeline3<Marker, M1, M2, M3>,
 {
    base: Marker::Raw,
    m1: Vec<M1>,
    m2: Vec<M2>,
    m3: Vec<M3>,
    f: F,
}

impl<Marker, M1, M2, M3, F> Stat3<Marker, M1, M2, M3, F> where
    Marker: StatMarker,
    M1: Modifier,
    M2: Modifier,
    M3: Modifier,
    F: Pipeline3<Marker, M1, M2, M3>,
 {
    /// The immutable base value.
    pub closed spec fn base_spec(self) -> Marker::Raw {
        self.base
    }

    /// Slot 1's modifiers, in storage order.
    pub closed spec fn m1_spec(self) -> Seq<M1> {
        self.m1@
    }

    /// Slot 2's modifiers, in storage order.
    pub closed spec fn m2_spec(self) -> Seq<M2> {
        self.m2@
    }

    /// Slot 3's modifiers, in storage order.
    pub closed spec fn m3_spec(self) -> Seq<M3> {
        self.m3@
    }

    /// The pipeline supplied at construction.
    pub closed spec fn pipeline_spec(self) -> F {
        self.f
    }

    /// The value `get` recomputes: the pipeline applied to the base and
    /// the current collections.
    pub open spec fn value_spec(self) -> Marker::Raw {
        self.pipeline_spec().eval_spec(self.base_spec(), self.m1_spec(), self.m2_spec(), self.m3_spec())
    }

    /// Creates an aggregator with no modifiers.
    pub fn new(base: Marker::Raw, f: F) -> (r: Self)
        ensures
            r.base_spec() == base,
            r.pipeline_spec() == f,
            r.m1_spec() == Seq::<M1>::empty(),
            r.m2_spec() == Seq::<M2>::empty(),
            r.m3_spec() == Seq::<M3>::empty(),
    {
        Stat3 { base, m1: Vec::new(), m2: Vec::new(), m3: Vec::new(), f }
    }

    /// Inserts a modifier into slot 1. Duplicates may coexist and all
    /// contribute.
    pub fn apply_m1(&mut self, value: M1)
        ensures
            final(self).base_spec() == old(self).base_spec(),
            final(self).pipeline_spec() == old(self).pipeline_spec(),
            final(self).m2_spec() == old(self).m2_spec(),
            final(self).m3_spec() == old(self).m3_spec(),
            final(self).m1_spec() == old(self).m1_spec().push(value),
    {
        self.m1.push(value);
    }

    /// Inserts a modifier into slot 2. Duplicates may coexist and all
    /// contribute.
    pub fn apply_m2(&mut self, value: M2)
        ensures
            final(self).base_spec() == old(self).base_spec(),
            final(self).pipeline_spec() == old(self).pipeline_spec(),
            final(self).m1_spec() == old(self).m1_spec(),
            final(self).m3_spec() == old(self).m3_spec(),
            final(self).m2_spec() == old(self).m2_spec().push(value),
    {
        self.m2.push(value);
    }

    /// Inserts a modifier into slot 3. Duplicates may coexist and all
    /// contribute.
    pub fn apply_m3(&mut self, value: M3)
        ensures
            final(self).base_spec() == old(self).base_spec(),
            final(self).pipeline_spec() == old(self).pipeline_spec(),
            final(self).m1_spec() == old(self).m1_spec(),
            final(self).m2_spec() == old(self).m2_spec(),
            final(self).m3_spec() == old(self).m3_spec().push(value),
    {
        self.m3.push(value);
    }

    /// Removes one occurrence equal to `value` from slot 1 by
    /// swap-removal; a no-op, not an error, if no equal modifier is
    /// stored.
    pub fn remove_m1(&mut self, value: M1)
        ensures
            final(self).base_spec() == old(self).base_spec(),
            final(self).pipeline_spec() == old(self).pipeline_spec(),
            final(self).m2_spec() == old(self).m2_spec(),
            final(self).m3_spec() == old(self).m3_spec(),
            old(self).m1_spec().contains(value) ==> exists|i: int|
                0 <= i < old(self).m1_spec().len() && old(self).m1_spec()[i] == value
                    && final(self).m1_spec() == old(self).m1_spec().update(
                    i,
                    old(self).m1_spec().last(),
                ).drop_last(),
            old(self).m1_spec().contains(value) ==> final(self).m1_spec().to_multiset() == old(
                self,
            ).m1_spec().to_multiset().remove(value),
            !old(self).m1_spec().contains(value) ==> final(self).m1_spec() == old(
                self,
            ).m1_spec(),
    {
        slot_remove_one(&mut self.m1, value);
    }

    /// Removes one occurrence equal to `value` from slot 2 by
    /// swap-removal; a no-op, not an error, if no equal modifier is
    /// stored.
    pub fn remove_m2(&mut self, value: M2)
        ensures
            final(self).base_spec() == old(self).base_spec(),
            final(self).pipeline_spec() == old(self).pipeline_spec(),
            final(self).m1_spec() == old(self).m1_spec(),
            final(self).m3_spec() == old(self).m3_spec(),
            old(self).m2_spec().contains(value) ==> exists|i: int|
                0 <= i < old(self).m2_spec().len() && old(self).m2_spec()[i] == value
                    && final(self).m2_spec() == old(self).m2_spec().update(
                    i,
                    old(self).m2_spec().last(),
                ).drop_last(),
            old(self).m2_spec().contains(value) ==> final(self).m2_spec().to_multiset() == old(
                self,
            ).m2_spec().to_multiset().remove(value),
            !old(self).m2_spec().contains(value) ==> final(self).m2_spec() == old(
                self,
            ).m2_spec(),
    {
        slot_remove_one(&mut self.m2, value);
    }

    /// Removes one occurrence equal to `value` from slot 3 by
    /// swap-removal; a no-op, not an error, if no equal modifier is
    /// stored.
    pub fn remove_m3(&mut self, value: M3)
        ensures
            final(self).base_spec() == old(self).base_spec(),
            final(self).pipeline_spec() == old(self).pipeline_spec(),
            final(self).m1_spec() == old(self).m1_spec(),
            final(self).m2_spec() == old(self).m2_spec(),
            old(self).m3_spec().contains(value) ==> exists|i: int|
                0 <= i < old(self).m3_spec().len() && old(self).m3_spec()[i] == value
                    && final(self).m3_spec() == old(self).m3_spec().update(
                    i,
                    old(self).m3_spec().last(),
                ).drop_last(),
            old(self).m3_spec().contains(value) ==> final(self).m3_spec().to_multiset() == old(
                self,
            ).m3_spec().to_multiset().remove(value),
            !old(self).m3_spec().contains(value) ==> final(self).m3_spec() == old(
                self,
            ).m3_spec(),
    {
        slot_remove_one(&mut self.m3, value);
    }

    /// True if and only if a modifier equal to `value` is stored in slot
    /// 1.
    pub fn has_m1(&self, value: M1) -> (r: bool)
        ensures
            r == self.m1_spec().contains(value),
    {
        slot_contains(&self.m1, value)
    }

    /// True if and only if a modifier equal to `value` is stored in slot
    /// 2.
    pub fn has_m2(&self, value: M2) -> (r: bool)
        ensures
            r == self.m2_spec().contains(value),
    {
        slot_contains(&self.m2, value)
    }

    /// True if and only if a modifier equal to `value` is stored in slot
    /// 3.
    pub fn has_m3(&self, value: M3) -> (r: bool)
        ensures
            r == self.m3_spec().contains(value),
    {
        slot_contains(&self.m3, value)
    }

    /// The immutable base value.
    pub fn base(&self) -> (r: Marker::Raw)
        ensures
            r == self.base_spec(),
    {
        self.base
    }

    /// Recomputes the stat from the base and the current collections.
    /// Nothing is cached: every call folds over the stored modifiers.
    pub fn get(&self) -> (r: Marker::Raw)
        ensures
            r == self.value_spec(),
    {
        self.f.eval(self.base, &self.m1, &self.m2, &self.m3)
    }

    /// Read-only view of slot 1 for enumeration.
    pub fn m1(&self) -> (r: &Vec<M1>)
        ensures
            r@ == self.m1_spec(),
    {
        &self.m1
    }

    /// Read-only view of slot 2 for enumeration.
    pub fn m2(&self) -> (r: &Vec<M2>)
        ensures
            r@ == self.m2_spec(),
    {
        &self.m2
    }

    /// Read-only view of slot 3 for enumeration.
    pub fn m3(&self) -> (r: &Vec<M3>)
        ensures
            r@ == self.m3_spec(),
    {
        &self.m3
    }

    /// Applying modifiers in either order leaves the computed value the
    /// same: two aggregators with the same base and pipeline whose slots
    /// agree as multisets agree on `get`.
    pub proof fn lemma_order_independent(self, other: Self)
        requires
            self.base_spec() == other.base_spec(),
            self.pipeline_spec() == other.pipeline_spec(),
            self.m1_spec().to_multiset() == other.m1_spec().to_multiset(),
            self.m2_spec().to_multiset() == other.m2_spec().to_multiset(),
            self.m3_spec().to_multiset() == other.m3_spec().to_multiset(),
        ensures
            self.value_spec() == other.value_spec(),
    {
        self.pipeline_spec().lemma_eval_permutation(
            self.base_spec(),
            self.m1_spec(),
            self.m2_spec(),
            self.m3_spec(),
            other.m1_spec(),
            other.m2_spec(),
            other.m3_spec(),
        );
    }

    /// The direct form of order independence for one slot: applying `a`
    /// then `b` to slot 1 yields the same computed value as applying `b`
    /// then `a`.
    pub proof fn lemma_apply_two_commute_m1(self, ab: Self, ba: Self, a: M1, b: M1)
        requires
            ab.base_spec() == self.base_spec(),
            ab.pipeline_spec() == self.pipeline_spec(),
            ba.base_spec() == self.base_spec(),
            ba.pipeline_spec() == self.pipeline_spec(),
            ab.m2_spec() == self.m2_spec(),
            ab.m3_spec() == self.m3_spec(),
            ba.m2_spec() == self.m2_spec(),
            ba.m3_spec() == self.m3_spec(),
            ab.m1_spec() == self.m1_spec().push(a).push(b),
            ba.m1_spec() == self.m1_spec().push(b).push(a),
        ensures
            ab.value_spec() == ba.value_spec(),
    {
        broadcast use vstd::seq_lib::group_to_multiset_ensures;

        assert(ab.m1_spec().to_multiset() =~= ba.m1_spec().to_multiset());
        ab.lemma_order_independent(ba);
    }

    /// Applying a modifier to slot 1 and then removing it returns the
    /// aggregator to its pre-apply state as far as `get` and `has` can
    /// observe.
    pub proof fn lemma_apply_remove_roundtrip_m1(
        self,
        applied: Self,
        removed: Self,
        value: M1,
    )
        requires
            applied.base_spec() == self.base_spec(),
            applied.pipeline_spec() == self.pipeline_spec(),
            applied.m2_spec() == self.m2_spec(),
            applied.m3_spec() == self.m3_spec(),
            applied.m1_spec() == self.m1_spec().push(value),
            removed.base_spec() == applied.base_spec(),
            removed.pipeline_spec() == applied.pipeline_spec(),
            removed.m2_spec() == applied.m2_spec(),
            removed.m3_spec() == applied.m3_spec(),
            removed.m1_spec().to_multiset() == applied.m1_spec().to_multiset().remove(
                value,
            ),
        ensures
            removed.value_spec() == self.value_spec(),
            forall|x: M1| removed.m1_spec().contains(x) == self.m1_spec().contains(x),
    {
        broadcast use vstd::seq_lib::group_to_multiset_ensures;

        assert(applied.m1_spec().to_multiset() == self.m1_spec().to_multiset().insert(value));
        assert(removed.m1_spec().to_multiset() =~= self.m1_spec().to_multiset());
        self.pipeline_spec().lemma_eval_permutation(
            self.base_spec(),
            removed.m1_spec(),
            removed.m2_spec(),
            removed.m3_spec(),
            self.m1_spec(),
            self.m2_spec(),
            self.m3_spec(),
        );
        assert forall|x: M1| removed.m1_spec().contains(x) == self.m1_spec().contains(
            x,
        ) by {
            assert(removed.m1_spec().contains(x) <==> removed.m1_spec().to_multiset().count(x)
                > 0);
            assert(self.m1_spec().contains(x) <==> self.m1_spec().to_multiset().count(x) > 0);
        }
    }

    /// Applying a modifier to slot 2 and then removing it returns the
    /// aggregator to its pre-apply state as far as `get` and `has` can
    /// observe.
    pub proof fn lemma_apply_remove_roundtrip_m2(
        self,
        applied: Self,
        removed: Self,
        value: M2,
    )
        requires
            applied.base_spec() == self.base_spec(),
            applied.pipeline_spec() == self.pipeline_spec(),
            applied.m1_spec() == self.m1_spec(),
            applied.m3_spec() == self.m3_spec(),
            applied.m2_spec() == self.m2_spec().push(value),
            removed.base_spec() == applied.base_spec(),
            removed.pipeline_spec() == applied.pipeline_spec(),
            removed.m1_spec() == applied.m1_spec(),
            removed.m3_spec() == applied.m3_spec(),
            removed.m2_spec().to_multiset() == applied.m2_spec().to_multiset().remove(
                value,
            ),
        ensures
            removed.value_spec() == self.value_spec(),
            forall|x: M2| removed.m2_spec().contains(x) == self.m2_spec().contains(x),
    {
        broadcast use vstd::seq_lib::group_to_multiset_ensures;

        assert(applied.m2_spec().to_multiset() == self.m2_spec().to_multiset().insert(value));
        assert(removed.m2_spec().to_multiset() =~= self.m2_spec().to_multiset());
        self.pipeline_spec().lemma_eval_permutation(
            self.base_spec(),
            removed.m1_spec(),
            removed.m2_spec(),
            removed.m3_spec(),
            self.m1_spec(),
            self.m2_spec(),
            self.m3_spec(),
        );
        assert forall|x: M2| removed.m2_spec().contains(x) == self.m2_spec().contains(
            x,
        ) by {
            assert(removed.m2_spec().contains(x) <==> removed.m2_spec().to_multiset().count(x)
                > 0);
            assert(self.m2_spec().contains(x) <==> self.m2_spec().to_multiset().count(x) > 0);
        }
    }

    /// Applying a modifier to slot 3 and then removing it returns the
    /// aggregator to its pre-apply state as far as `get` and `has` can
    /// observe.
    pub proof fn lemma_apply_remove_roundtrip_m3(
        self,
        applied: Self,
        removed: Self,
        value: M3,
    )
        requires
            applied.base_spec() == self.base_spec(),
            applied.pipeline_spec() == self.pipeline_spec(),
            applied.m1_spec() == self.m1_spec(),
            applied.m2_spec() == self.m2_spec(),
            applied.m3_spec() == self.m3_spec().push(value),
            removed.base_spec() == applied.base_spec(),
            removed.pipeline_spec() == applied.pipeline_spec(),
            removed.m1_spec() == applied.m1_spec(),
            removed.m2_spec() == applied.m2_spec(),
            removed.m3_spec().to_multiset() == applied.m3_spec().to_multiset().remove(
                value,
            ),
        ensures
            removed.value_spec() == self.value_spec(),
            forall|x: M3| removed.m3_spec().contains(x) == self.m3_spec().contains(x),
    {
        broadcast use vstd::seq_lib::group_to_multiset_ensures;

        assert(applied.m3_spec().to_multiset() == self.m3_spec().to_multiset().insert(value));
        assert(removed.m3_spec().to_multiset() =~= self.m3_spec().to_multiset());
        self.pipeline_spec().lemma_eval_permutation(
            self.base_spec(),
            removed.m1_spec(),
            removed.m2_spec(),
            removed.m3_spec(),
            self.m1_spec(),
            self.m2_spec(),
            self.m3_spec(),
        );
        assert forall|x: M3| removed.m3_spec().contains(x) == self.m3_spec().contains(
            x,
        ) by {
            assert(removed.m3_spec().contains(x) <==> removed.m3_spec().to_multiset().count(x)
                > 0);
            assert(self.m3_spec().contains(x) <==> self.m3_spec().to_multiset().count(x) > 0);
        }
    }

}

/// An aggregator over 4 modifier categories: one base value, one collection per category,
/// and the pipeline that folds them together. The base and the pipeline
/// are fixed at construction; the only mutable state is category
/// membership.
pub struct Stat4<Marker, M1, M2, M3, M4, F> where
    Marker: StatMarker,
    M1: Modifier,
    M2: Modifier,
    M3: Modifier,
    M4: Modifier,
    F: Pipeline4<Marker, M1, M2, M3, M4>,
 {
    base: Marker::Raw,
    m1: Vec<M1>,
    m2: Vec<M2>,
    m3: Vec<M3>,
    m4: Vec<M4>,
    f: F,
}

impl<Marker, M1, M2, M3, M4, F> Stat4<Marker, M1, M2, M3, M4, F> where
    Marker: StatMarker,
    M1: Modifier,
    M2: Modifier,
    M3: Modifier,
    M4: Modifier,
    F: Pipeline4<Marker, M1, M2, M3, M4>,
 {
    /// The immutable base value.
    pub closed spec fn base_spec(self) -> Marker::Raw {
        self.base
    }

    /// Slot 1's modifiers, in storage order.
    pub closed spec fn m1_spec(self) -> Seq<M1> {
        self.m1@
    }

    /// Slot 2's modifiers, in storage order.
    pub closed spec fn m2_spec(self) -> Seq<M2> {
        self.m2@
    }

    /// Slot 3's modifiers, in storage order.
    pub closed spec fn m3_spec(self) -> Seq<M3> {
        self.m3@
    }

    /// Slot 4's modifiers, in storage order.
    pub closed spec fn m4_spec(self) -> Seq<M4> {
        self.m4@
    }

    /// The pipeline supplied at construction.
    pub closed spec fn pipeline_spec(self) -> F {
        self.f
    }

    /// The value `get` recomputes: the pipeline applied to the base and
    /// the current collections.
    pub open spec fn value_spec(self) -> Marker::Raw {
        self.pipeline_spec().eval_spec(self.base_spec(), self.m1_spec(), self.m2_spec(), self.m3_spec(), self.m4_spec())
    }

    /// Creates an aggregator with no modifiers.
    pub fn new(base: Marker::Raw, f: F) -> (r: Self)
        ensures
            r.base_spec() == base,
            r.pipeline_spec() == f,
            r.m1_spec() == Seq::<M1>::empty(),
            r.m2_spec() == Seq::<M2>::empty(),
            r.m3_spec() == Seq::<M3>::empty(),
            r.m4_spec() == Seq::<M4>::empty(),
    {
        Stat4 { base, m1: Vec::new(), m2: Vec::new(), m3: Vec::new(), m4: Vec::new(), f }
    }

    /// Inserts a modifier into slot 1. Duplicates may coexist and all
    /// contribute.
    pub fn apply_m1(&mut self, value: M1)
        ensures
            final(self).base_spec() == old(self).base_spec(),
            final(self).pipeline_spec() == old(self).pipeline_spec(),
            final(self).m2_spec() == old(self).m2_spec(),
            final(self).m3_spec() == old(self).m3_spec(),
            final(self).m4_spec() == old(self).m4_spec(),
            final(self).m1_spec() == old(self).m1_spec().push(value),
    {
        self.m1.push(value);
    }

    /// Inserts a modifier into slot 2. Duplicates may coexist and all
    /// contribute.
    pub fn apply_m2(&mut self, value: M2)
        ensures
            final(self).base_spec() == old(self).base_spec(),
            final(self).pipeline_spec() == old(self).pipeline_spec(),
            final(self).m1_spec() == old(self).m1_spec(),
            final(self).m3_spec() == old(self).m3_spec(),
            final(self).m4_spec() == old(self).m4_spec(),
            final(self).m2_spec() == old(self).m2_spec().push(value),
    {
        self.m2.push(value);
    }

    /// Inserts a modifier into slot 3. Duplicates may coexist and all
    /// contribute.
    pub fn apply_m3(&mut self, value: M3)
        ensures
            final(self).base_spec() == old(self).base_spec(),
            final(self).pipeline_spec() == old(self).pipeline_spec(),
            final(self).m1_spec() == old(self).m1_spec(),
            final(self).m2_spec() == old(self).m2_spec(),
            final(self).m4_spec() == old(self).m4_spec(),
            final(self).m3_spec() == old(self).m3_spec().push(value),
    {
        self.m3.push(value);
    }

    /// Inserts a modifier into slot 4. Duplicates may coexist and all
    /// contribute.
    pub fn apply_m4(&mut self, value: M4)
        ensures
            final(self).base_spec() == old(self).base_spec(),
            final(self).pipeline_spec() == old(self).pipeline_spec(),
            final(self).m1_spec() == old(self).m1_spec(),
            final(self).m2_spec() == old(self).m2_spec(),
            final(self).m3_spec() == old(self).m3_spec(),
            final(self).m4_spec() == old(self).m4_spec().push(value),
    {
        self.m4.push(value);
    }

    /// Removes one occurrence equal to `value` from slot 1 by
    /// swap-removal; a no-op, not an error, if no equal modifier is
    /// stored.
    pub fn remove_m1(&mut self, value: M1)
        ensures
            final(self).base_spec() == old(self).base_spec(),
            final(self).pipeline_spec() == old(self).pipeline_spec(),
            final(self).m2_spec() == old(self).m2_spec(),
            final(self).m3_spec() == old(self).m3_spec(),
            final(self).m4_spec() == old(self).m4_spec(),
            old(self).m1_spec().contains(value) ==> exists|i: int|
                0 <= i < old(self).m1_spec().len() && old(self).m1_spec()[i] == value
                    && final(self).m1_spec() == old(self).m1_spec().update(
                    i,
                    old(self).m1_spec().last(),
                ).drop_last(),
            old(self).m1_spec().contains(value) ==> final(self).m1_spec().to_multiset() == old(
                self,
            ).m1_spec().to_multiset().remove(value),
            !old(self).m1_spec().contains(value) ==> final(self).m1_spec() == old(
                self,
            ).m1_spec(),
    {
        slot_remove_one(&mut self.m1, value);
    }

    /// Removes one occurrence equal to `value` from slot 2 by
    /// swap-removal; a no-op, not an error, if no equal modifier is
    /// stored.
    pub fn remove_m2(&mut self, value: M2)
        ensures
            final(self).base_spec() == old(self).base_spec(),
            final(self).pipeline_spec() == old(self).pipeline_spec(),
            final(self).m1_spec() == old(self).m1_spec(),
            final(self).m3_spec() == old(self).m3_spec(),
            final(self).m4_spec() == old(self).m4_spec(),
            old(self).m2_spec().contains(value) ==> exists|i: int|
                0 <= i < old(self).m2_spec().len() && old(self).m2_spec()[i] == value
                    && final(self).m2_spec() == old(self).m2_spec().update(
                    i,
                    old(self).m2_spec().last(),
                ).drop_last(),
            old(self).m2_spec().contains(value) ==> final(self).m2_spec().to_multiset() == old(
                self,
            ).m2_spec().to_multiset().remove(value),
            !old(self).m2_spec().contains(value) ==> final(self).m2_spec() == old(
                self,
            ).m2_spec(),
    {
        slot_remove_one(&mut self.m2, value);
    }

    /// Removes one occurrence equal to `value` from slot 3 by
    /// swap-removal; a no-op, not an error, if no equal modifier is
    /// stored.
    pub fn remove_m3(&mut self, value: M3)
        ensures
            final(self).base_spec() == old(self).base_spec(),
            final(self).pipeline_spec() == old(self).pipeline_spec(),
            final(self).m1_spec() == old(self).m1_spec(),
            final(self).m2_spec() == old(self).m2_spec(),
            final(self).m4_spec() == old(self).m4_spec(),
            old(self).m3_spec().contains(value) ==> exists|i: int|
                0 <= i < old(self).m3_spec().len() && old(self).m3_spec()[i] == value
                    && final(self).m3_spec() == old(self).m3_spec().update(
                    i,
                    old(self).m3_spec().last(),
                ).drop_last(),
            old(self).m3_spec().contains(value) ==> final(self).m3_spec().to_multiset() == old(
                self,
            ).m3_spec().to_multiset().remove(value),
            !old(self).m3_spec().contains(value) ==> final(self).m3_spec() == old(
                self,
            ).m3_spec(),
    {
        slot_remove_one(&mut self.m3, value);
    }

    /// Removes one occurrence equal to `value` from slot 4 by
    /// swap-removal; a no-op, not an error, if no equal modifier is
    /// stored.
    pub fn remove_m4(&mut self, value: M4)
        ensures
            final(self).base_spec() == old(self).base_spec(),
            final(self).pipeline_spec() == old(self).pipeline_spec(),
            final(self).m1_spec() == old(self).m1_spec(),
            final(self).m2_spec() == old(self).m2_spec(),
            final(self).m3_spec() == old(self).m3_spec(),
            old(self).m4_spec().contains(value) ==> exists|i: int|
                0 <= i < old(self).m4_spec().len() && old(self).m4_spec()[i] == value
                    && final(self).m4_spec() == old(self).m4_spec().update(
                    i,
                    old(self).m4_spec().last(),
                ).drop_last(),
            old(self).m4_spec().contains(value) ==> final(self).m4_spec().to_multiset() == old(
                self,
            ).m4_spec().to_multiset().remove(value),
            !old(self).m4_spec().contains(value) ==> final(self).m4_spec() == old(
                self,
            ).m4_spec(),
    {
        slot_remove_one(&mut self.m4, value);
    }

    /// True if and only if a modifier equal to `value` is stored in slot
    /// 1.
    pub fn has_m1(&self, value: M1) -> (r: bool)
        ensures
            r == self.m1_spec().contains(value),
    {
        slot_contains(&self.m1, value)
    }

    /// True if and only if a modifier equal to `value` is stored in slot
    /// 2.
    pub fn has_m2(&self, value: M2) -> (r: bool)
        ensures
            r == self.m2_spec().contains(value),
    {
        slot_contains(&self.m2, value)
    }

    /// True if and only if a modifier equal to `value` is stored in slot
    /// 3.
    pub fn has_m3(&self, value: M3) -> (r: bool)
        ensures
            r == self.m3_spec().contains(value),
    {
        slot_contains(&self.m3, value)
    }

    /// True if and only if a modifier equal to `value` is stored in slot
    /// 4.
    pub fn has_m4(&self, value: M4) -> (r: bool)
        ensures
            r == self.m4_spec().contains(value),
    {
        slot_contains(&self.m4, value)
    }

    /// The immutable base value.
    pub fn base(&self) -> (r: Marker::Raw)
        ensures
            r == self.base_spec(),
    {
        self.base
    }

    /// Recomputes the stat from the base and the current collections.
    /// Nothing is cached: every call folds over the stored modifiers.
    pub fn get(&self) -> (r: Marker::Raw)
        ensures
            r == self.value_spec(),
    {
        self.f.eval(self.base, &self.m1, &self.m2, &self.m3, &self.m4)
    }

    /// Read-only view of slot 1 for enumeration.
    pub fn m1(&self) -> (r: &Vec<M1>)
        ensures
            r@ == self.m1_spec(),
    {
        &self.m1
    }

    /// Read-only view of slot 2 for enumeration.
    pub fn m2(&self) -> (r: &Vec<M2>)
        ensures
            r@ == self.m2_spec(),
    {
        &self.m2
    }

    /// Read-only view of slot 3 for enumeration.
    pub fn m3(&self) -> (r: &Vec<M3>)
        ensures
            r@ == self.m3_spec(),
    {
        &self.m3
    }

    /// Read-only view of slot 4 for enumeration.
    pub fn m4(&self) -> (r: &Vec<M4>)
        ensures
            r@ == self.m4_spec(),
    {
        &self.m4
    }

    /// Applying modifiers in either order leaves the computed value the
    /// same: two aggregators with the same base and pipeline whose slots
    /// agree as multisets agree on `get`.
    pub proof fn lemma_order_independent(self, other: Self)
        requires
            self.base_spec() == other.base_spec(),
            self.pipeline_spec() == other.pipeline_spec(),
            self.m1_spec().to_multiset() == other.m1_spec().to_multiset(),
            self.m2_spec().to_multiset() == other.m2_spec().to_multiset(),
            self.m3_spec().to_multiset() == other.m3_spec().to_multiset(),
            self.m4_spec().to_multiset() == other.m4_spec().to_multiset(),
        ensures
            self.value_spec() == other.value_spec(),
    {
        self.pipeline_spec().lemma_eval_permutation(
            self.base_spec(),
            self.m1_spec(),
            self.m2_spec(),
            self.m3_spec(),
            self.m4_spec(),
            other.m1_spec(),
            other.m2_spec(),
            other.m3_spec(),
            other.m4_spec(),
        );
    }

    /// The direct form of order independence for one slot: applying `a`
    /// then `b` to slot 1 yields the same computed value as applying `b`
    /// then `a`.
    pub proof fn lemma_apply_two_commute_m1(self, ab: Self, ba: Self, a: M1, b: M1)
        requires
            ab.base_spec() == self.base_spec(),
            ab.pipeline_spec() == self.pipeline_spec(),
            ba.base_spec() == self.base_spec(),
            ba.pipeline_spec() == self.pipeline_spec(),
            ab.m2_spec() == self.m2_spec(),
            ab.m3_spec() == self.m3_spec(),
            ab.m4_spec() == self.m4_spec(),
            ba.m2_spec() == self.m2_spec(),
            ba.m3_spec() == self.m3_spec(),
            ba.m4_spec() == self.m4_spec(),
            ab.m1_spec() == self.m1_spec().push(a).push(b),
            ba.m1_spec() == self.m1_spec().push(b).push(a),
        ensures
            ab.value_spec() == ba.value_spec(),
    {
        broadcast use vstd::seq_lib::group_to_multiset_ensures;

        assert(ab.m1_spec().to_multiset() =~= ba.m1_spec().to_multiset());
        ab.lemma_order_independent(ba);
    }

    /// Applying a modifier to slot 1 and then removing it returns the
    /// aggregator to its pre-apply state as far as `get` and `has` can
    /// observe.
    pub proof fn lemma_apply_remove_roundtrip_m1(
        self,
        applied: Self,
        removed: Self,
        value: M1,
    )
        requires
            applied.base_spec() == self.base_spec(),
            applied.pipeline_spec() == self.pipeline_spec(),
            applied.m2_spec() == self.m2_spec(),
            applied.m3_spec() == self.m3_spec(),
            applied.m4_spec() == self.m4_spec(),
            applied.m1_spec() == self.m1_spec().push(value),
            removed.base_spec() == applied.base_spec(),
            removed.pipeline_spec() == applied.pipeline_spec(),
            removed.m2_spec() == applied.m2_spec(),
            removed.m3_spec() == applied.m3_spec(),
            removed.m4_spec() == applied.m4_spec(),
            removed.m1_spec().to_multiset() == applied.m1_spec().to_multiset().remove(
                value,
            ),
        ensures
            removed.value_spec() == self.value_spec(),
            forall|x: M1| removed.m1_spec().contains(x) == self.m1_spec().contains(x),
    {
        broadcast use vstd::seq_lib::group_to_multiset_ensures;

        assert(applied.m1_spec().to_multiset() == self.m1_spec().to_multiset().insert(value));
        assert(removed.m1_spec().to_multiset() =~= self.m1_spec().to_multiset());
        self.pipeline_spec().lemma_eval_permutation(
            self.base_spec(),
            removed.m1_spec(),
            removed.m2_spec(),
            removed.m3_spec(),
            removed.m4_spec(),
            self.m1_spec(),
            self.m2_spec(),
            self.m3_spec(),
            self.m4_spec(),
        );
        assert forall|x: M1| removed.m1_spec().contains(x) == self.m1_spec().contains(
            x,
        ) by {
            assert(removed.m1_spec().contains(x) <==> removed.m1_spec().to_multiset().count(x)
                > 0);
            assert(self.m1_spec().contains(x) <==> self.m1_spec().to_multiset().count(x) > 0);
        }
    }

    /// Applying a modifier to slot 2 and then removing it returns the
    /// aggregator to its pre-apply state as far as `get` and `has` can
    /// observe.
    pub proof fn lemma_apply_remove_roundtrip_m2(
        self,
        applied: Self,
        removed: Self,
        value: M2,
    )
        requires
            applied.base_spec() == self.base_spec(),
            applied.pipeline_spec() == self.pipeline_spec(),
            applied.m1_spec() == self.m1_spec(),
            applied.m3_spec() == self.m3_spec(),
            applied.m4_spec() == self.m4_spec(),
            applied.m2_spec() == self.m2_spec().push(value),
            removed.base_spec() == applied.base_spec(),
            removed.pipeline_spec() == applied.pipeline_spec(),
            removed.m1_spec() == applied.m1_spec(),
            removed.m3_spec() == applied.m3_spec(),
            removed.m4_spec() == applied.m4_spec(),
            removed.m2_spec().to_multiset() == applied.m2_spec().to_multiset().remove(
                value,
            ),
        ensures
            removed.value_spec() == self.value_spec(),
            forall|x: M2| removed.m2_spec().contains(x) == self.m2_spec().contains(x),
    {
        broadcast use vstd::seq_lib::group_to_multiset_ensures;

        assert(applied.m2_spec().to_multiset() == self.m2_spec().to_multiset().insert(value));
        assert(removed.m2_spec().to_multiset() =~= self.m2_spec().to_multiset());
        self.pipeline_spec().lemma_eval_permutation(
            self.base_spec(),
            removed.m1_spec(),
            removed.m2_spec(),
            removed.m3_spec(),
            removed.m4_spec(),
            self.m1_spec(),
            self.m2_spec(),
            self.m3_spec(),
            self.m4_spec(),
        );
        assert forall|x: M2| removed.m2_spec().contains(x) == self.m2_spec().contains(
            x,
        ) by {
            assert(removed.m2_spec().contains(x) <==> removed.m2_spec().to_multiset().count(x)
                > 0);
            assert(self.m2_spec().contains(x) <==> self.m2_spec().to_multiset().count(x) > 0);
        }
    }

    /// Applying a modifier to slot 3 and then removing it returns the
    /// aggregator to its pre-apply state as far as `get` and `has` can
    /// observe.
    pub proof fn lemma_apply_remove_roundtrip_m3(
        self,
        applied: Self,
        removed: Self,
        value: M3,
    )
        requires
            applied.base_spec() == self.base_spec(),
            applied.pipeline_spec() == self.pipeline_spec(),
            applied.m1_spec() == self.m1_spec(),
            applied.m2_spec() == self.m2_spec(),
            applied.m4_spec() == self.m4_spec(),
            applied.m3_spec() == self.m3_spec().push(value),
            removed.base_spec() == applied.base_spec(),
            removed.pipeline_spec() == applied.pipeline_spec(),
            removed.m1_spec() == applied.m1_spec(),
            removed.m2_spec() == applied.m2_spec(),
            removed.m4_spec() == applied.m4_spec(),
            removed.m3_spec().to_multiset() == applied.m3_spec().to_multiset().remove(
                value,
            ),
        ensures
            removed.value_spec() == self.value_spec(),
            forall|x: M3| removed.m3_spec().contains(x) == self.m3_spec().contains(x),
    {
        broadcast use vstd::seq_lib::group_to_multiset_ensures;

        assert(applied.m3_spec().to_multiset() == self.m3_spec().to_multiset().insert(value));
        assert(removed.m3_spec().to_multiset() =~= self.m3_spec().to_multiset());
        self.pipeline_spec().lemma_eval_permutation(
            self.base_spec(),
            removed.m1_spec(),
            removed.m2_spec(),
            removed.m3_spec(),
            removed.m4_spec(),
            self.m1_spec(),
            self.m2_spec(),
            self.m3_spec(),
            self.m4_spec(),
        );
        assert forall|x: M3| removed.m3_spec().contains(x) == self.m3_spec().contains(
            x,
        ) by {
            assert(removed.m3_spec().contains(x) <==> removed.m3_spec().to_multiset().count(x)
                > 0);
            assert(self.m3_spec().contains(x) <==> self.m3_spec().to_multiset().count(x) > 0);
        }
    }

    /// Applying a modifier to slot 4 and then removing it returns the
    /// aggregator to its pre-apply state as far as `get` and `has` can
    /// observe.
    pub proof fn lemma_apply_remove_roundtrip_m4(
        self,
        applied: Self,
        removed: Self,
        value: M4,
    )
        requires
            applied.base_spec() == self.base_spec(),
            applied.pipeline_spec() == self.pipeline_spec(),
            applied.m1_spec() == self.m1_spec(),
            applied.m2_spec() == self.m2_spec(),
            applied.m3_spec() == self.m3_spec(),
            applied.m4_spec() == self.m4_spec().push(value),
            removed.base_spec() == applied.base_spec(),
            removed.pipeline_spec() == applied.pipeline_spec(),
            removed.m1_spec() == applied.m1_spec(),
            removed.m2_spec() == applied.m2_spec(),
            removed.m3_spec() == applied.m3_spec(),
            removed.m4_spec().to_multiset() == applied.m4_spec().to_multiset().remove(
                value,
            ),
        ensures
            removed.value_spec() == self.value_spec(),
            forall|x: M4| removed.m4_spec().contains(x) == self.m4_spec().contains(x),
    {
        broadcast use vstd::seq_lib::group_to_multiset_ensures;

        assert(applied.m4_spec().to_multiset() == self.m4_spec().to_multiset().insert(value));
        assert(removed.m4_spec().to_multiset() =~= self.m4_spec().to_multiset());
        self.pipeline_spec().lemma_eval_permutation(
            self.base_spec(),
            removed.m1_spec(),
            removed.m2_spec(),
            removed.m3_spec(),
            removed.m4_spec(),
            self.m1_spec(),
            self.m2_spec(),
            self.m3_spec(),
            self.m4_spec(),
        );
        assert forall|x: M4| removed.m4_spec().contains(x) == self.m4_spec().contains(
            x,
        ) by {
            assert(removed.m4_spec().contains(x) <==> removed.m4_spec().to_multiset().count(x)
                > 0);
            assert(self.m4_spec().contains(x) <==> self.m4_spec().to_multiset().count(x) > 0);
        }
    }

}

/// An aggregator over 5 modifier categories: one base value, one collection per category,
/// and the pipeline that folds them together. The base and the pipeline
/// are fixed at construction; the only mutable state is category
/// membership.
pub struct Stat5<Marker, M1, M2, M3, M4, M5, F> where
    Marker: StatMarker,
    M1: Modifier,
    M2: Modifier,
    M3: Modifier,
    M4: Modifier,
    M5: Modifier,
    F: Pipeline5<Marker, M1, M2, M3, M4, M5>,
 {
    base: Marker::Raw,
    m1: Vec<M1>,
    m2: Vec<M2>,
    m3: Vec<M3>,
    m4: Vec<M4>,
    m5: Vec<M5>,
    f: F,
}

impl<Marker, M1, M2, M3, M4, M5, F> Stat5<Marker, M1, M2, M3, M4, M5, F> where
    Marker: StatMarker,
    M1: Modifier,
    M2: Modifier,
    M3: Modifier,
    M4: Modifier,
    M5: Modifier,
    F: Pipeline5<Marker, M1, M2, M3, M4, M5>,
 {
    /// The immutable base value.
    pub closed spec fn base_spec(self) -> Marker::Raw {
        self.base
    }

    /// Slot 1's modifiers, in storage order.
    pub closed spec fn m1_spec(self) -> Seq<M1> {
        self.m1@
    }

    /// Slot 2's modifiers, in storage order.
    pub closed spec fn m2_spec(self) -> Seq<M2> {
        self.m2@
    }

    /// Slot 3's modifiers, in storage order.
    pub closed spec fn m3_spec(self) -> Seq<M3> {
        self.m3@
    }

    /// Slot 4's modifiers, in storage order.
    pub closed spec fn m4_spec(self) -> Seq<M4> {
        self.m4@
    }

    /// Slot 5's modifiers, in storage order.
    pub closed spec fn m5_spec(self) -> Seq<M5> {
        self.m5@
    }

    /// The pipeline supplied at construction.
    pub closed spec fn pipeline_spec(self) -> F {
        self.f
    }

    /// The value `get` recomputes: the pipeline applied to the base and
    /// the current collections.
    pub open spec fn value_spec(self) -> Marker::Raw {
        self.pipeline_spec().eval_spec(self.base_spec(), self.m1_spec(), self.m2_spec(), self.m3_spec(), self.m4_spec(), self.m5_spec())
    }

    /// Creates an aggregator with no modifiers.
    pub fn new(base: Marker::Raw, f: F) -> (r: Self)
        ensures
            r.base_spec() == base,
            r.pipeline_spec() == f,
            r.m1_spec() == Seq::<M1>::empty(),
            r.m2_spec() == Seq::<M2>::empty(),
            r.m3_spec() == Seq::<M3>::empty(),
            r.m4_spec() == Seq::<M4>::empty(),
            r.m5_spec() == Seq::<M5>::empty(),
    {
        Stat5 { base, m1: Vec::new(), m2: Vec::new(), m3: Vec::new(), m4: Vec::new(), m5: Vec::new(), f }
    }

    /// Inserts a modifier into slot 1. Duplicates may coexist and all
    /// contribute.
    pub fn apply_m1(&mut self, value: M1)
        ensures
            final(self).base_spec() == old(self).base_spec(),
            final(self).pipeline_spec() == old(self).pipeline_spec(),
            final(self).m2_spec() == old(self).m2_spec(),
            final(self).m3_spec() == old(self).m3_spec(),
            final(self).m4_spec() == old(self).m4_spec(),
            final(self).m5_spec() == old(self).m5_spec(),
            final(self).m1_spec() == old(self).m1_spec().push(value),
    {
        self.m1.push(value);
    }

    /// Inserts a modifier into slot 2. Duplicates may coexist and all
    /// contribute.
    pub fn apply_m2(&mut self, value: M2)
        ensures
            final(self).base_spec() == old(self).base_spec(),
            final(self).pipeline_spec() == old(self).pipeline_spec(),
            final(self).m1_spec() == old(self).m1_spec(),
            final(self).m3_spec() == old(self).m3_spec(),
            final(self).m4_spec() == old(self).m4_spec(),
            final(self).m5_spec() == old(self).m5_spec(),
            final(self).m2_spec() == old(self).m2_spec().push(value),
    {
        self.m2.push(value);
    }

    /// Inserts a modifier into slot 3. Duplicates may coexist and all
    /// contribute.
    pub fn apply_m3(&mut self, value: M3)
        ensures
            final(self).base_spec() == old(self).base_spec(),
            final(self).pipeline_spec() == old(self).pipeline_spec(),
            final(self).m1_spec() == old(self).m1_spec(),
            final(self).m2_spec() == old(self).m2_spec(),
            final(self).m4_spec() == old(self).m4_spec(),
            final(self).m5_spec() == old(self).m5_spec(),
            final(self).m3_spec() == old(self).m3_spec().push(value),
    {
        self.m3.push(value);
    }

    /// Inserts a modifier into slot 4. Duplicates may coexist and all
    /// contribute.
    pub fn apply_m4(&mut self, value: M4)
        ensures
            final(self).base_spec() == old(self).base_spec(),
            final(self).pipeline_spec() == old(self).pipeline_spec(),
            final(self).m1_spec() == old(self).m1_spec(),
            final(self).m2_spec() == old(self).m2_spec(),
            final(self).m3_spec() == old(self).m3_spec(),
            final(self).m5_spec() == old(self).m5_spec(),
            final(self).m4_spec() == old(self).m4_spec().push(value),
    {
        self.m4.push(value);
    }

    /// Inserts a modifier into slot 5. Duplicates may coexist and all
    /// contribute.
    pub fn apply_m5(&mut self, value: M5)
        ensures
            final(self).base_spec() == old(self).base_spec(),
            final(self).pipeline_spec() == old(self).pipeline_spec(),
            final(self).m1_spec() == old(self).m1_spec(),
            final(self).m2_spec() == old(self).m2_spec(),
            final(self).m3_spec() == old(self).m3_spec(),
            final(self).m4_spec() == old(self).m4_spec(),
            final(self).m5_spec() == old(self).m5_spec().push(value),
    {
        self.m5.push(value);
    }

    /// Removes one occurrence equal to `value` from slot 1 by
    /// swap-removal; a no-op, not an error, if no equal modifier is
    /// stored.
    pub fn remove_m1(&mut self, value: M1)
        ensures
            final(self).base_spec() == old(self).base_spec(),
            final(self).pipeline_spec() == old(self).pipeline_spec(),
            final(self).m2_spec() == old(self).m2_spec(),
            final(self).m3_spec() == old(self).m3_spec(),
            final(self).m4_spec() == old(self).m4_spec(),
            final(self).m5_spec() == old(self).m5_spec(),
            old(self).m1_spec().contains(value) ==> exists|i: int|
                0 <= i < old(self).m1_spec().len() && old(self).m1_spec()[i] == value
                    && final(self).m1_spec() == old(self).m1_spec().update(
                    i,
                    old(self).m1_spec().last(),
                ).drop_last(),
            old(self).m1_spec().contains(value) ==> final(self).m1_spec().to_multiset() == old(
                self,
            ).m1_spec().to_multiset().remove(value),
            !old(self).m1_spec().contains(value) ==> final(self).m1_spec() == old(
                self,
            ).m1_spec(),
    {
        slot_remove_one(&mut self.m1, value);
    }

    /// Removes one occurrence equal to `value` from slot 2 by
    /// swap-removal; a no-op, not an error, if no equal modifier is
    /// stored.
    pub fn remove_m2(&mut self, value: M2)
        ensures
            final(self).base_spec() == old(self).base_spec(),
            final(self).pipeline_spec() == old(self).pipeline_spec(),
            final(self).m1_spec() == old(self).m1_spec(),
            final(self).m3_spec() == old(self).m3_spec(),
            final(self).m4_spec() == old(self).m4_spec(),
            final(self).m5_spec() == old(self).m5_spec(),
            old(self).m2_spec().contains(value) ==> exists|i: int|
                0 <= i < old(self).m2_spec().len() && old(self).m2_spec()[i] == value
                    && final(self).m2_spec() == old(self).m2_spec().update(
                    i,
                    old(self).m2_spec().last(),
                ).drop_last(),
            old(self).m2_spec().contains(value) ==> final(self).m2_spec().to_multiset() == old(
                self,
            ).m2_spec().to_multiset().remove(value),
            !old(self).m2_spec().contains(value) ==> final(self).m2_spec() == old(
                self,
            ).m2_spec(),
    {
        slot_remove_one(&mut self.m2, value);
    }

    /// Removes one occurrence equal to `value` from slot 3 by
    /// swap-removal; a no-op, not an error, if no equal modifier is
    /// stored.
    pub fn remove_m3(&mut self, value: M3)
        ensures
            final(self).base_spec() == old(self).base_spec(),
            final(self).pipeline_spec() == old(self).pipeline_spec(),
            final(self).m1_spec() == old(self).m1_spec(),
            final(self).m2_spec() == old(self).m2_spec(),
            final(self).m4_spec() == old(self).m4_spec(),
            final(self).m5_spec() == old(self).m5_spec(),
            old(self).m3_spec().contains(value) ==> exists|i: int|
                0 <= i < old(self).m3_spec().len() && old(self).m3_spec()[i] == value
                    && final(self).m3_spec() == old(self).m3_spec().update(
                    i,
                    old(self).m3_spec().last(),
                ).drop_last(),
            old(self).m3_spec().contains(value) ==> final(self).m3_spec().to_multiset() == old(
                self,
            ).m3_spec().to_multiset().remove(value),
            !old(self).m3_spec().contains(value) ==> final(self).m3_spec() == old(
                self,
            ).m3_spec(),
    {
        slot_remove_one(&mut self.m3, value);
    }

    /// Removes one occurrence equal to `value` from slot 4 by
    /// swap-removal; a no-op, not an error, if no equal modifier is
    /// stored.
    pub fn remove_m4(&mut self, value: M4)
        ensures
            final(self).base_spec() == old(self).base_spec(),
            final(self).pipeline_spec() == old(self).pipeline_spec(),
            final(self).m1_spec() == old(self).m1_spec(),
            final(self).m2_spec() == old(self).m2_spec(),
            final(self).m3_spec() == old(self).m3_spec(),
            final(self).m5_spec() == old(self).m5_spec(),
            old(self).m4_spec().contains(value) ==> exists|i: int|
                0 <= i < old(self).m4_spec().len() && old(self).m4_spec()[i] == value
                    && final(self).m4_spec() == old(self).m4_spec().update(
                    i,
                    old(self).m4_spec().last(),
                ).drop_last(),
            old(self).m4_spec().contains(value) ==> final(self).m4_spec().to_multiset() == old(
                self,
            ).m4_spec().to_multiset().remove(value),
            !old(self).m4_spec().contains(value) ==> final(self).m4_spec() == old(
                self,
            ).m4_spec(),
    {
        slot_remove_one(&mut self.m4, value);
    }

    /// Removes one occurrence equal to `value` from slot 5 by
    /// swap-removal; a no-op, not an error, if no equal modifier is
    /// stored.
    pub fn remove_m5(&mut self, value: M5)
        ensures
            final(self).base_spec() == old(self).base_spec(),
            final(self).pipeline_spec() == old(self).pipeline_spec(),
            final(self).m1_spec() == old(self).m1_spec(),
            final(self).m2_spec() == old(self).m2_spec(),
            final(self).m3_spec() == old(self).m3_spec(),
            final(self).m4_spec() == old(self).m4_spec(),
            old(self).m5_spec().contains(value) ==> exists|i: int|
                0 <= i < old(self).m5_spec().len() && old(self).m5_spec()[i] == value
                    && final(self).m5_spec() == old(self).m5_spec().update(
                    i,
                    old(self).m5_spec().last(),
                ).drop_last(),
            old(self).m5_spec().contains(value) ==> final(self).m5_spec().to_multiset() == old(
                self,
            ).m5_spec().to_multiset().remove(value),
            !old(self).m5_spec().contains(value) ==> final(self).m5_spec() == old(
                self,
            ).m5_spec(),
    {
        slot_remove_one(&mut self.m5, value);
    }

    /// True if and only if a modifier equal to `value` is stored in slot
    /// 1.
    pub fn has_m1(&self, value: M1) -> (r: bool)
        ensures
            r == self.m1_spec().contains(value),
    {
        slot_contains(&self.m1, value)
    }

    /// True if and only if a modifier equal to `value` is stored in slot
    /// 2.
    pub fn has_m2(&self, value: M2) -> (r: bool)
        ensures
            r == self.m2_spec().contains(value),
    {
        slot_contains(&self.m2, value)
    }

    /// True if and only if a modifier equal to `value` is stored in slot
    /// 3.
    pub fn has_m3(&self, value: M3) -> (r: bool)
        ensures
            r == self.m3_spec().contains(value),
    {
        slot_contains(&self.m3, value)
    }

    /// True if and only if a modifier equal to `value` is stored in slot
    /// 4.
    pub fn has_m4(&self, value: M4) -> (r: bool)
        ensures
            r == self.m4_spec().contains(value),
    {
        slot_contains(&self.m4, value)
    }

    /// True if and only if a modifier equal to `value` is stored in slot
    /// 5.
    pub fn has_m5(&self, value: M5) -> (r: bool)
        ensures
            r == self.m5_spec().contains(value),
    {
        slot_contains(&self.m5, value)
    }

    /// The immutable base value.
    pub fn base(&self) -> (r: Marker::Raw)
        ensures
            r == self.base_spec(),
    {
        self.base
    }

    /// Recomputes the stat from the base and the current collections.
    /// Nothing is cached: every call folds over the stored modifiers.
    pub fn get(&self) -> (r: Marker::Raw)
        ensures
            r == self.value_spec(),
    {
        self.f.eval(self.base, &self.m1, &self.m2, &self.m3, &self.m4, &self.m5)
    }

    /// Read-only view of slot 1 for enumeration.
    pub fn m1(&self) -> (r: &Vec<M1>)
        ensures
            r@ == self.m1_spec(),
    {
        &self.m1
    }

    /// Read-only view of slot 2 for enumeration.
    pub fn m2(&self) -> (r: &Vec<M2>)
        ensures
            r@ == self.m2_spec(),
    {
        &self.m2
    }

    /// Read-only view of slot 3 for enumeration.
    pub fn m3(&self) -> (r: &Vec<M3>)
        ensures
            r@ == self.m3_spec(),
    {
        &self.m3
    }

    /// Read-only view of slot 4 for enumeration.
    pub fn m4(&self) -> (r: &Vec<M4>)
        ensures
            r@ == self.m4_spec(),
    {
        &self.m4
    }

    /// Read-only view of slot 5 for enumeration.
    pub fn m5(&self) -> (r: &Vec<M5>)
        ensures
            r@ == self.m5_spec(),
    {
        &self.m5
    }

    /// Applying modifiers in either order leaves the computed value the
    /// same: two aggregators with the same base and pipeline whose slots
    /// agree as multisets agree on `get`.
    pub proof fn lemma_order_independent(self, other: Self)
        requires
            self.base_spec() == other.base_spec(),
            self.pipeline_spec() == other.pipeline_spec(),
            self.m1_spec().to_multiset() == other.m1_spec().to_multiset(),
            self.m2_spec().to_multiset() == other.m2_spec().to_multiset(),
            self.m3_spec().to_multiset() == other.m3_spec().to_multiset(),
            self.m4_spec().to_multiset() == other.m4_spec().to_multiset(),
            self.m5_spec().to_multiset() == other.m5_spec().to_multiset(),
        ensures
            self.value_spec() == other.value_spec(),
    {
        self.pipeline_spec().lemma_eval_permutation(
            self.base_spec(),
            self.m1_spec(),
            self.m2_spec(),
            self.m3_spec(),
            self.m4_spec(),
            self.m5_spec(),
            other.m1_spec(),
            other.m2_spec(),
            other.m3_spec(),
            other.m4_spec(),
            other.m5_spec(),
        );
    }

    /// The direct form of order independence for one slot: applying `a`
    /// then `b` to slot 1 yields the same computed value as applying `b`
    /// then `a`.
    pub proof fn lemma_apply_two_commute_m1(self, ab: Self, ba: Self, a: M1, b: M1)
        requires
            ab.base_spec() == self.base_spec(),
            ab.pipeline_spec() == self.pipeline_spec(),
            ba.base_spec() == self.base_spec(),
            ba.pipeline_spec() == self.pipeline_spec(),
            ab.m2_spec() == self.m2_spec(),
            ab.m3_spec() == self.m3_spec(),
            ab.m4_spec() == self.m4_spec(),
            ab.m5_spec() == self.m5_spec(),
            ba.m2_spec() == self.m2_spec(),
            ba.m3_spec() == self.m3_spec(),
            ba.m4_spec() == self.m4_spec(),
            ba.m5_spec() == self.m5_spec(),
            ab.m1_spec() == self.m1_spec().push(a).push(b),
            ba.m1_spec() == self.m1_spec().push(b).push(a),
        ensures
            ab.value_spec() == ba.value_spec(),
    {
        broadcast use vstd::seq_lib::group_to_multiset_ensures;

        assert(ab.m1_spec().to_multiset() =~= ba.m1_spec().to_multiset());
        ab.lemma_order_independent(ba);
    }

    /// Applying a modifier to slot 1 and then removing it returns the
    /// aggregator to its pre-apply state as far as `get` and `has` can
    /// observe.
    pub proof fn lemma_apply_remove_roundtrip_m1(
        self,
        applied: Self,
        removed: Self,
        value: M1,
    )
        requires
            applied.base_spec() == self.base_spec(),
            applied.pipeline_spec() == self.pipeline_spec(),
            applied.m2_spec() == self.m2_spec(),
            applied.m3_spec() == self.m3_spec(),
            applied.m4_spec() == self.m4_spec(),
            applied.m5_spec() == self.m5_spec(),
            applied.m1_spec() == self.m1_spec().push(value),
            removed.base_spec() == applied.base_spec(),
            removed.pipeline_spec() == applied.pipeline_spec(),
            removed.m2_spec() == applied.m2_spec(),
            removed.m3_spec() == applied.m3_spec(),
            removed.m4_spec() == applied.m4_spec(),
            removed.m5_spec() == applied.m5_spec(),
            removed.m1_spec().to_multiset() == applied.m1_spec().to_multiset().remove(
                value,
            ),
        ensures
            removed.value_spec() == self.value_spec(),
            forall|x: M1| removed.m1_spec().contains(x) == self.m1_spec().contains(x),
    {
        broadcast use vstd::seq_lib::group_to_multiset_ensures;

        assert(applied.m1_spec().to_multiset() == self.m1_spec().to_multiset().insert(value));
        assert(removed.m1_spec().to_multiset() =~= self.m1_spec().to_multiset());
        self.pipeline_spec().lemma_eval_permutation(
            self.base_spec(),
            removed.m1_spec(),
            removed.m2_spec(),
            removed.m3_spec(),
            removed.m4_spec(),
            removed.m5_spec(),
            self.m1_spec(),
            self.m2_spec(),
            self.m3_spec(),
            self.m4_spec(),
            self.m5_spec(),
        );
        assert forall|x: M1| removed.m1_spec().contains(x) == self.m1_spec().contains(
            x,
        ) by {
            assert(removed.m1_spec().contains(x) <==> removed.m1_spec().to_multiset().count(x)
                > 0);
            assert(self.m1_spec().contains(x) <==> self.m1_spec().to_multiset().count(x) > 0);
        }
    }

    /// Applying a modifier to slot 2 and then removing it returns the
    /// aggregator to its pre-apply state as far as `get` and `has` can
    /// observe.
    pub proof fn lemma_apply_remove_roundtrip_m2(
        self,
        applied: Self,
        removed: Self,
        value: M2,
    )
        requires
            applied.base_spec() == self.base_spec(),
            applied.pipeline_spec() == self.pipeline_spec(),
            applied.m1_spec() == self.m1_spec(),
            applied.m3_spec() == self.m3_spec(),
            applied.m4_spec() == self.m4_spec(),
            applied.m5_spec() == self.m5_spec(),
            applied.m2_spec() == self.m2_spec().push(value),
            removed.base_spec() == applied.base_spec(),
            removed.pipeline_spec() == applied.pipeline_spec(),
            removed.m1_spec() == applied.m1_spec(),
            removed.m3_spec() == applied.m3_spec(),
            removed.m4_spec() == applied.m4_spec(),
            removed.m5_spec() == applied.m5_spec(),
            removed.m2_spec().to_multiset() == applied.m2_spec().to_multiset().remove(
                value,
            ),
        ensures
            removed.value_spec() == self.value_spec(),
            forall|x: M2| removed.m2_spec().contains(x) == self.m2_spec().contains(x),
    {
        broadcast use vstd::seq_lib::group_to_multiset_ensures;

        assert(applied.m2_spec().to_multiset() == self.m2_spec().to_multiset().insert(value));
        assert(removed.m2_spec().to_multiset() =~= self.m2_spec().to_multiset());
        self.pipeline_spec().lemma_eval_permutation(
            self.base_spec(),
            removed.m1_spec(),
            removed.m2_spec(),
            removed.m3_spec(),
            removed.m4_spec(),
            removed.m5_spec(),
            self.m1_spec(),
            self.m2_spec(),
            self.m3_spec(),
            self.m4_spec(),
            self.m5_spec(),
        );
        assert forall|x: M2| removed.m2_spec().contains(x) == self.m2_spec().contains(
            x,
        ) by {
            assert(removed.m2_spec().contains(x) <==> removed.m2_spec().to_multiset().count(x)
                > 0);
            assert(self.m2_spec().contains(x) <==> self.m2_spec().to_multiset().count(x) > 0);
        }
    }

    /// Applying a modifier to slot 3 and then removing it returns the
    /// aggregator to its pre-apply state as far as `get` and `has` can
    /// observe.
    pub proof fn lemma_apply_remove_roundtrip_m3(
        self,
        applied: Self,
        removed: Self,
        value: M3,
    )
        requires
            applied.base_spec() == self.base_spec(),
            applied.pipeline_spec() == self.pipeline_spec(),
            applied.m1_spec() == self.m1_spec(),
            applied.m2_spec() == self.m2_spec(),
            applied.m4_spec() == self.m4_spec(),
            applied.m5_spec() == self.m5_spec(),
            applied.m3_spec() == self.m3_spec().push(value),
            removed.base_spec() == applied.base_spec(),
            removed.pipeline_spec() == applied.pipeline_spec(),
            removed.m1_spec() == applied.m1_spec(),
            removed.m2_spec() == applied.m2_spec(),
            removed.m4_spec() == applied.m4_spec(),
            removed.m5_spec() == applied.m5_spec(),
            removed.m3_spec().to_multiset() == applied.m3_spec().to_multiset().remove(
                value,
            ),
        ensures
            removed.value_spec() == self.value_spec(),
            forall|x: M3| removed.m3_spec().contains(x) == self.m3_spec().contains(x),
    {
        broadcast use vstd::seq_lib::group_to_multiset_ensures;

        assert(applied.m3_spec().to_multiset() == self.m3_spec().to_multiset().insert(value));
        assert(removed.m3_spec().to_multiset() =~= self.m3_spec().to_multiset());
        self.pipeline_spec().lemma_eval_permutation(
            self.base_spec(),
            removed.m1_spec(),
            removed.m2_spec(),
            removed.m3_spec(),
            removed.m4_spec(),
            removed.m5_spec(),
            self.m1_spec(),
            self.m2_spec(),
            self.m3_spec(),
            self.m4_spec(),
            self.m5_spec(),
        );
        assert forall|x: M3| removed.m3_spec().contains(x) == self.m3_spec().contains(
            x,
        ) by {
            assert(removed.m3_spec().contains(x) <==> removed.m3_spec().to_multiset().count(x)
                > 0);
            assert(self.m3_spec().contains(x) <==> self.m3_spec().to_multiset().count(x) > 0);
        }
    }

    /// Applying a modifier to slot 4 and then removing it returns the
    /// aggregator to its pre-apply state as far as `get` and `has` can
    /// observe.
    pub proof fn lemma_apply_remove_roundtrip_m4(
        self,
        applied: Self,
        removed: Self,
        value: M4,
    )
        requires
            applied.base_spec() == self.base_spec(),
            applied.pipeline_spec() == self.pipeline_spec(),
            applied.m1_spec() == self.m1_spec(),
            applied.m2_spec() == self.m2_spec(),
            applied.m3_spec() == self.m3_spec(),
            applied.m5_spec() == self.m5_spec(),
            applied.m4_spec() == self.m4_spec().push(value),
            removed.base_spec() == applied.base_spec(),
            removed.pipeline_spec() == applied.pipeline_spec(),
            removed.m1_spec() == applied.m1_spec(),
            removed.m2_spec() == applied.m2_spec(),
            removed.m3_spec() == applied.m3_spec(),
            removed.m5_spec() == applied.m5_spec(),
            removed.m4_spec().to_multiset() == applied.m4_spec().to_multiset().remove(
                value,
            ),
        ensures
            removed.value_spec() == self.value_spec(),
            forall|x: M4| removed.m4_spec().contains(x) == self.m4_spec().contains(x),
    {
        broadcast use vstd::seq_lib::group_to_multiset_ensures;

        assert(applied.m4_spec().to_multiset() == self.m4_spec().to_multiset().insert(value));
        assert(removed.m4_spec().to_multiset() =~= self.m4_spec().to_multiset());
        self.pipeline_spec().lemma_eval_permutation(
            self.base_spec(),
            removed.m1_spec(),
            removed.m2_spec(),
            removed.m3_spec(),
            removed.m4_spec(),
            removed.m5_spec(),
            self.m1_spec(),
            self.m2_spec(),
            self.m3_spec(),
            self.m4_spec(),
            self.m5_spec(),
        );
        assert forall|x: M4| removed.m4_spec().contains(x) == self.m4_spec().contains(
            x,
        ) by {
            assert(removed.m4_spec().contains(x) <==> removed.m4_spec().to_multiset().count(x)
                > 0);
            assert(self.m4_spec().contains(x) <==> self.m4_spec().to_multiset().count(x) > 0);
        }
    }

    /// Applying a modifier to slot 5 and then removing it returns the
    /// aggregator to its pre-apply state as far as `get` and `has` can
    /// observe.
    pub proof fn lemma_apply_remove_roundtrip_m5(
        self,
        applied: Self,
        removed: Self,
        value: M5,
    )
        requires
            applied.base_spec() == self.base_spec(),
            applied.pipeline_spec() == self.pipeline_spec(),
            applied.m1_spec() == self.m1_spec(),
            applied.m2_spec() == self.m2_spec(),
            applied.m3_spec() == self.m3_spec(),
            applied.m4_spec() == self.m4_spec(),
            applied.m5_spec() == self.m5_spec().push(value),
            removed.base_spec() == applied.base_spec(),
            removed.pipeline_spec() == applied.pipeline_spec(),
            removed.m1_spec() == applied.m1_spec(),
            removed.m2_spec() == applied.m2_spec(),
            removed.m3_spec() == applied.m3_spec(),
            removed.m4_spec() == applied.m4_spec(),
            removed.m5_spec().to_multiset() == applied.m5_spec().to_multiset().remove(
                value,
            ),
        ensures
            removed.value_spec() == self.value_spec(),
            forall|x: M5| removed.m5_spec().contains(x) == self.m5_spec().contains(x),
    {
        broadcast use vstd::seq_lib::group_to_multiset_ensures;

        assert(applied.m5_spec().to_multiset() == self.m5_spec().to_multiset().insert(value));
        assert(removed.m5_spec().to_multiset() =~= self.m5_spec().to_multiset());
        self.pipeline_spec().lemma_eval_permutation(
            self.base_spec(),
            removed.m1_spec(),
            removed.m2_spec(),
            removed.m3_spec(),
            removed.m4_spec(),
            removed.m5_spec(),
            self.m1_spec(),
            self.m2_spec(),
            self.m3_spec(),
            self.m4_spec(),
            self.m5_spec(),
        );
        assert forall|x: M5| removed.m5_spec().contains(x) == self.m5_spec().contains(
            x,
        ) by {
            assert(removed.m5_spec().contains(x) <==> removed.m5_spec().to_multiset().count(x)
                > 0);
            assert(self.m5_spec().contains(x) <==> self.m5_spec().to_multiset().count(x) > 0);
        }
    }

}

/// An aggregator over 6 modifier categories: one base value, one collection per category,
/// and the pipeline that folds them together. The base and the pipeline
/// are fixed at construction; the only mutable state is category
/// membership.
pub struct Stat6<Marker, M1, M2, M3, M4, M5, M6, F> where
    Marker: StatMarker,
    M1: Modifier,
    M2: Modifier,
    M3: Modifier,
    M4: Modifier,
    M5: Modifier,
    M6: Modifier,
    F: Pipeline6<Marker, M1, M2, M3, M4, M5, M6>,
 {
    base: Marker::Raw,
    m1: Vec<M1>,
    m2: Vec<M2>,
    m3: Vec<M3>,
    m4: Vec<M4>,
    m5: Vec<M5>,
    m6: Vec<M6>,
    f: F,
}

impl<Marker, M1, M2, M3, M4, M5, M6, F> Stat6<Marker, M1, M2, M3, M4, M5, M6, F> where
    Marker: StatMarker,
    M1: Modifier,
    M2: Modifier,
    M3: Modifier,
    M4: Modifier,
    M5: Modifier,
    M6: Modifier,
    F: Pipeline6<Marker, M1, M2, M3, M4, M5, M6>,
 {
    /// The immutable base value.
    pub closed spec fn base_spec(self) -> Marker::Raw {
        self.base
    }

    /// Slot 1's modifiers, in storage order.
    pub closed spec fn m1_spec(self) -> Seq<M1> {
        self.m1@
    }

    /// Slot 2's modifiers, in storage order.
    pub closed spec fn m2_spec(self) -> Seq<M2> {
        self.m2@
    }

    /// Slot 3's modifiers, in storage order.
    pub closed spec fn m3_spec(self) -> Seq<M3> {
        self.m3@
    }

    /// Slot 4's modifiers, in storage order.
    pub closed spec fn m4_spec(self) -> Seq<M4> {
        self.m4@
    }

    /// Slot 5's modifiers, in storage order.
    pub closed spec fn m5_spec(self) -> Seq<M5> {
        self.m5@
    }

    /// Slot 6's modifiers, in storage order.
    pub closed spec fn m6_spec(self) -> Seq<M6> {
        self.m6@
    }

    /// The pipeline supplied at construction.
    pub closed spec fn pipeline_spec(self) -> F {
        self.f
    }

    /// The value `get` recomputes: the pipeline applied to the base and
    /// the current collections.
    pub open spec fn value_spec(self) -> Marker::Raw {
        self.pipeline_spec().eval_spec(self.base_spec(), self.m1_spec(), self.m2_spec(), self.m3_spec(), self.m4_spec(), self.m5_spec(), self.m6_spec())
    }

    /// Creates an aggregator with no modifiers.
    pub fn new(base: Marker::Raw, f: F) -> (r: Self)
        ensures
            r.base_spec() == base,
            r.pipeline_spec() == f,
            r.m1_spec() == Seq::<M1>::empty(),
            r.m2_spec() == Seq::<M2>::empty(),
            r.m3_spec() == Seq::<M3>::empty(),
            r.m4_spec() == Seq::<M4>::empty(),
            r.m5_spec() == Seq::<M5>::empty(),
            r.m6_spec() == Seq::<M6>::empty(),
    {
        Stat6 { base, m1: Vec::new(), m2: Vec::new(), m3: Vec::new(), m4: Vec::new(), m5: Vec::new(), m6: Vec::new(), f }
    }

    /// Inserts a modifier into slot 1. Duplicates may coexist and all
    /// contribute.
    pub fn apply_m1(&mut self, value: M1)
        ensures
            final(self).base_spec() == old(self).base_spec(),
            final(self).pipeline_spec() == old(self).pipeline_spec(),
            final(self).m2_spec() == old(self).m2_spec(),
            final(self).m3_spec() == old(self).m3_spec(),
            final(self).m4_spec() == old(self).m4_spec(),
            final(self).m5_spec() == old(self).m5_spec(),
            final(self).m6_spec() == old(self).m6_spec(),
            final(self).m1_spec() == old(self).m1_spec().push(value),
    {
        self.m1.push(value);
    }

    /// Inserts a modifier into slot 2. Duplicates may coexist and all
    /// contribute.
    pub fn apply_m2(&mut self, value: M2)
        ensures
            final(self).base_spec() == old(self).base_spec(),
            final(self).pipeline_spec() == old(self).pipeline_spec(),
            final(self).m1_spec() == old(self).m1_spec(),
            final(self).m3_spec() == old(self).m3_spec(),
            final(self).m4_spec() == old(self).m4_spec(),
            final(self).m5_spec() == old(self).m5_spec(),
            final(self).m6_spec() == old(self).m6_spec(),
            final(self).m2_spec() == old(self).m2_spec().push(value),
    {
        self.m2.push(value);
    }

    /// Inserts a modifier into slot 3. Duplicates may coexist and all
    /// contribute.
    pub fn apply_m3(&mut self, value: M3)
        ensures
            final(self).base_spec() == old(self).base_spec(),
            final(self).pipeline_spec() == old(self).pipeline_spec(),
            final(self).m1_spec() == old(self).m1_spec(),
            final(self).m2_spec() == old(self).m2_spec(),
            final(self).m4_spec() == old(self).m4_spec(),
            final(self).m5_spec() == old(self).m5_spec(),
            final(self).m6_spec() == old(self).m6_spec(),
            final(self).m3_spec() == old(self).m3_spec().push(value),
    {
        self.m3.push(value);
    }

    /// Inserts a modifier into slot 4. Duplicates may coexist and all
    /// contribute.
    pub fn apply_m4(&mut self, value: M4)
        ensures
            final(self).base_spec() == old(self).base_spec(),
            final(self).pipeline_spec() == old(self).pipeline_spec(),
            final(self).m1_spec() == old(self).m1_spec(),
            final(self).m2_spec() == old(self).m2_spec(),
            final(self).m3_spec() == old(self).m3_spec(),
            final(self).m5_spec() == old(self).m5_spec(),
            final(self).m6_spec() == old(self).m6_spec(),
            final(self).m4_spec() == old(self).m4_spec().push(value),
    {
        self.m4.push(value);
    }

    /// Inserts a modifier into slot 5. Duplicates may coexist and all
    /// contribute.
    pub fn apply_m5(&mut self, value: M5)
        ensures
            final(self).base_spec() == old(self).base_spec(),
            final(self).pipeline_spec() == old(self).pipeline_spec(),
            final(self).m1_spec() == old(self).m1_spec(),
            final(self).m2_spec() == old(self).m2_spec(),
            final(self).m3_spec() == old(self).m3_spec(),
            final(self).m4_spec() == old(self).m4_spec(),
            final(self).m6_spec() == old(self).m6_spec(),
            final(self).m5_spec() == old(self).m5_spec().push(value),
    {
        self.m5.push(value);
    }

    /// Inserts a modifier into slot 6. Duplicates may coexist and all
    /// contribute.
    pub fn apply_m6(&mut self, value: M6)
        ensures
            final(self).base_spec() == old(self).base_spec(),
            final(self).pipeline_spec() == old(self).pipeline_spec(),
            final(self).m1_spec() == old(self).m1_spec(),
            final(self).m2_spec() == old(self).m2_spec(),
            final(self).m3_spec() == old(self).m3_spec(),
            final(self).m4_spec() == old(self).m4_spec(),
            final(self).m5_spec() == old(self).m5_spec(),
            final(self).m6_spec() == old(self).m6_spec().push(value),
    {
        self.m6.push(value);
    }

    /// Removes one occurrence equal to `value` from slot 1 by
    /// swap-removal; a no-op, not an error, if no equal modifier is
    /// stored.
    pub fn remove_m1(&mut self, value: M1)
        ensures
            final(self).base_spec() == old(self).base_spec(),
            final(self).pipeline_spec() == old(self).pipeline_spec(),
            final(self).m2_spec() == old(self).m2_spec(),
            final(self).m3_spec() == old(self).m3_spec(),
            final(self).m4_spec() == old(self).m4_spec(),
            final(self).m5_spec() == old(self).m5_spec(),
            final(self).m6_spec() == old(self).m6_spec(),
            old(self).m1_spec().contains(value) ==> exists|i: int|
                0 <= i < old(self).m1_spec().len() && old(self).m1_spec()[i] == value
                    && final(self).m1_spec() == old(self).m1_spec().update(
                    i,
                    old(self).m1_spec().last(),
                ).drop_last(),
            old(self).m1_spec().contains(value) ==> final(self).m1_spec().to_multiset() == old(
                self,
            ).m1_spec().to_multiset().remove(value),
            !old(self).m1_spec().contains(value) ==> final(self).m1_spec() == old(
                self,
            ).m1_spec(),
    {
        slot_remove_one(&mut self.m1, value);
    }

    /// Removes one occurrence equal to `value` from slot 2 by
    /// swap-removal; a no-op, not an error, if no equal modifier is
    /// stored.
    pub fn remove_m2(&mut self, value: M2)
        ensures
            final(self).base_spec() == old(self).base_spec(),
            final(self).pipeline_spec() == old(self).pipeline_spec(),
            final(self).m1_spec() == old(self).m1_spec(),
            final(self).m3_spec() == old(self).m3_spec(),
            final(self).m4_spec() == old(self).m4_spec(),
            final(self).m5_spec() == old(self).m5_spec(),
            final(self).m6_spec() == old(self).m6_spec(),
            old(self).m2_spec().contains(value) ==> exists|i: int|
                0 <= i < old(self).m2_spec().len() && old(self).m2_spec()[i] == value
                    && final(self).m2_spec() == old(self).m2_spec().update(
                    i,
                    old(self).m2_spec().last(),
                ).drop_last(),
            old(self).m2_spec().contains(value) ==> final(self).m2_spec().to_multiset() == old(
                self,
            ).m2_spec().to_multiset().remove(value),
            !old(self).m2_spec().contains(value) ==> final(self).m2_spec() == old(
                self,
            ).m2_spec(),
    {
        slot_remove_one(&mut self.m2, value);
    }

    /// Removes one occurrence equal to `value` from slot 3 by
    /// swap-removal; a no-op, not an error, if no equal modifier is
    /// stored.
    pub fn remove_m3(&mut self, value: M3)
        ensures
            final(self).base_spec() == old(self).base_spec(),
            final(self).pipeline_spec() == old(self).pipeline_spec(),
            final(self).m1_spec() == old(self).m1_spec(),
            final(self).m2_spec() == old(self).m2_spec(),
            final(self).m4_spec() == old(self).m4_spec(),
            final(self).m5_spec() == old(self).m5_spec(),
            final(self).m6_spec() == old(self).m6_spec(),
            old(self).m3_spec().contains(value) ==> exists|i: int|
                0 <= i < old(self).m3_spec().len() && old(self).m3_spec()[i] == value
                    && final(self).m3_spec() == old(self).m3_spec().update(
                    i,
                    old(self).m3_spec().last(),
                ).drop_last(),
            old(self).m3_spec().contains(value) ==> final(self).m3_spec().to_multiset() == old(
                self,
            ).m3_spec().to_multiset().remove(value),
            !old(self).m3_spec().contains(value) ==> final(self).m3_spec() == old(
                self,
            ).m3_spec(),
    {
        slot_remove_one(&mut self.m3, value);
    }

    /// Removes one occurrence equal to `value` from slot 4 by
    /// swap-removal; a no-op, not an error, if no equal modifier is
    /// stored.
    pub fn remove_m4(&mut self, value: M4)
        ensures
            final(self).base_spec() == old(self).base_spec(),
            final(self).pipeline_spec() == old(self).pipeline_spec(),
            final(self).m1_spec() == old(self).m1_spec(),
            final(self).m2_spec() == old(self).m2_spec(),
            final(self).m3_spec() == old(self).m3_spec(),
            final(self).m5_spec() == old(self).m5_spec(),
            final(self).m6_spec() == old(self).m6_spec(),
            old(self).m4_spec().contains(value) ==> exists|i: int|
                0 <= i < old(self).m4_spec().len() && old(self).m4_spec()[i] == value
                    && final(self).m4_spec() == old(self).m4_spec().update(
                    i,
                    old(self).m4_spec().last(),
                ).drop_last(),
            old(self).m4_spec().contains(value) ==> final(self).m4_spec().to_multiset() == old(
                self,
            ).m4_spec().to_multiset().remove(value),
            !old(self).m4_spec().contains(value) ==> final(self).m4_spec() == old(
                self,
            ).m4_spec(),
    {
        slot_remove_one(&mut self.m4, value);
    }

    /// Removes one occurrence equal to `value` from slot 5 by
    /// swap-removal; a no-op, not an error, if no equal modifier is
    /// stored.
    pub fn remove_m5(&mut self, value: M5)
        ensures
            final(self).base_spec() == old(self).base_spec(),
            final(self).pipeline_spec() == old(self).pipeline_spec(),
            final(self).m1_spec() == old(self).m1_spec(),
            final(self).m2_spec() == old(self).m2_spec(),
            final(self).m3_spec() == old(self).m3_spec(),
            final(self).m4_spec() == old(self).m4_spec(),
            final(self).m6_spec() == old(self).m6_spec(),
            old(self).m5_spec().contains(value) ==> exists|i: int|
                0 <= i < old(self).m5_spec().len() && old(self).m5_spec()[i] == value
                    && final(self).m5_spec() == old(self).m5_spec().update(
                    i,
                    old(self).m5_spec().last(),
                ).drop_last(),
            old(self).m5_spec().contains(value) ==> final(self).m5_spec().to_multiset() == old(
                self,
            ).m5_spec().to_multiset().remove(value),
            !old(self).m5_spec().contains(value) ==> final(self).m5_spec() == old(
                self,
            ).m5_spec(),
    {
        slot_remove_one(&mut self.m5, value);
    }

    /// Removes one occurrence equal to `value` from slot 6 by
    /// swap-removal; a no-op, not an error, if no equal modifier is
    /// stored.
    pub fn remove_m6(&mut self, value: M6)
        ensures
            final(self).base_spec() == old(self).base_spec(),
            final(self).pipeline_spec() == old(self).pipeline_spec(),
            final(self).m1_spec() == old(self).m1_spec(),
            final(self).m2_spec() == old(self).m2_spec(),
            final(self).m3_spec() == old(self).m3_spec(),
            final(self).m4_spec() == old(self).m4_spec(),
            final(self).m5_spec() == old(self).m5_spec(),
            old(self).m6_spec().contains(value) ==> exists|i: int|
                0 <= i < old(self).m6_spec().len() && old(self).m6_spec()[i] == value
                    && final(self).m6_spec() == old(self).m6_spec().update(
                    i,
                    old(self).m6_spec().last(),
                ).drop_last(),
            old(self).m6_spec().contains(value) ==> final(self).m6_spec().to_multiset() == old(
                self,
            ).m6_spec().to_multiset().remove(value),
            !old(self).m6_spec().contains(value) ==> final(self).m6_spec() == old(
                self,
            ).m6_spec(),
    {
        slot_remove_one(&mut self.m6, value);
    }

    /// True if and only if a modifier equal to `value` is stored in slot
    /// 1.
    pub fn has_m1(&self, value: M1) -> (r: bool)
        ensures
            r == self.m1_spec().contains(value),
    {
        slot_contains(&self.m1, value)
    }

    /// True if and only if a modifier equal to `value` is stored in slot
    /// 2.
    pub fn has_m2(&self, value: M2) -> (r: bool)
        ensures
            r == self.m2_spec().contains(value),
    {
        slot_contains(&self.m2, value)
    }

    /// True if and only if a modifier equal to `value` is stored in slot
    /// 3.
    pub fn has_m3(&self, value: M3) -> (r: bool)
        ensures
            r == self.m3_spec().contains(value),
    {
        slot_contains(&self.m3, value)
    }

    /// True if and only if a modifier equal to `value` is stored in slot
    /// 4.
    pub fn has_m4(&self, value: M4) -> (r: bool)
        ensures
            r == self.m4_spec().contains(value),
    {
        slot_contains(&self.m4, value)
    }

    /// True if and only if a modifier equal to `value` is stored in slot
    /// 5.
    pub fn has_m5(&self, value: M5) -> (r: bool)
        ensures
            r == self.m5_spec().contains(value),
    {
        slot_contains(&self.m5, value)
    }

    /// True if and only if a modifier equal to `value` is stored in slot
    /// 6.
    pub fn has_m6(&self, value: M6) -> (r: bool)
        ensures
            r == self.m6_spec().contains(value),
    {
        slot_contains(&self.m6, value)
    }

    /// The immutable base value.
    pub fn base(&self) -> (r: Marker::Raw)
        ensures
            r == self.base_spec(),
    {
        self.base
    }

    /// Recomputes the stat from the base and the current collections.
    /// Nothing is cached: every call folds over the stored modifiers.
    pub fn get(&self) -> (r: Marker::Raw)
        ensures
            r == self.value_spec(),
    {
        self.f.eval(self.base, &self.m1, &self.m2, &self.m3, &self.m4, &self.m5, &self.m6)
    }

    /// Read-only view of slot 1 for enumeration.
    pub fn m1(&self) -> (r: &Vec<M1>)
        ensures
            r@ == self.m1_spec(),
    {
        &self.m1
    }

    /// Read-only view of slot 2 for enumeration.
    pub fn m2(&self) -> (r: &Vec<M2>)
        ensures
            r@ == self.m2_spec(),
    {
        &self.m2
    }

    /// Read-only view of slot 3 for enumeration.
    pub fn m3(&self) -> (r: &Vec<M3>)
        ensures
            r@ == self.m3_spec(),
    {
        &self.m3
    }

    /// Read-only view of slot 4 for enumeration.
    pub fn m4(&self) -> (r: &Vec<M4>)
        ensures
            r@ == self.m4_spec(),
    {
        &self.m4
    }

    /// Read-only view of slot 5 for enumeration.
    pub fn m5(&self) -> (r: &Vec<M5>)
        ensures
            r@ == self.m5_spec(),
    {
        &self.m5
    }

    /// Read-only view of slot 6 for enumeration.
    pub fn m6(&self) -> (r: &Vec<M6>)
        ensures
            r@ == self.m6_spec(),
    {
        &self.m6
    }

    /// Applying modifiers in either order leaves the computed value the
    /// same: two aggregators with the same base and pipeline whose slots
    /// agree as multisets agree on `get`.
    pub proof fn lemma_order_independent(self, other: Self)
        requires
            self.base_spec() == other.base_spec(),
            self.pipeline_spec() == other.pipeline_spec(),
            self.m1_spec().to_multiset() == other.m1_spec().to_multiset(),
            self.m2_spec().to_multiset() == other.m2_spec().to_multiset(),
            self.m3_spec().to_multiset() == other.m3_spec().to_multiset(),
            self.m4_spec().to_multiset() == other.m4_spec().to_multiset(),
            self.m5_spec().to_multiset() == other.m5_spec().to_multiset(),
            self.m6_spec().to_multiset() == other.m6_spec().to_multiset(),
        ensures
            self.value_spec() == other.value_spec(),
    {
        self.pipeline_spec().lemma_eval_permutation(
            self.base_spec(),
            self.m1_spec(),
            self.m2_spec(),
            self.m3_spec(),
            self.m4_spec(),
            self.m5_spec(),
            self.m6_spec(),
            other.m1_spec(),
            other.m2_spec(),
            other.m3_spec(),
            other.m4_spec(),
            other.m5_spec(),
            other.m6_spec(),
        );
    }

    /// The direct form of order independence for one slot: applying `a`
    /// then `b` to slot 1 yields the same computed value as applying `b`
    /// then `a`.
    pub proof fn lemma_apply_two_commute_m1(self, ab: Self, ba: Self, a: M1, b: M1)
        requires
            ab.base_spec() == self.base_spec(),
            ab.pipeline_spec() == self.pipeline_spec(),
            ba.base_spec() == self.base_spec(),
            ba.pipeline_spec() == self.pipeline_spec(),
            ab.m2_spec() == self.m2_spec(),
            ab.m3_spec() == self.m3_spec(),
            ab.m4_spec() == self.m4_spec(),
            ab.m5_spec() == self.m5_spec(),
            ab.m6_spec() == self.m6_spec(),
            ba.m2_spec() == self.m2_spec(),
            ba.m3_spec() == self.m3_spec(),
            ba.m4_spec() == self.m4_spec(),
            ba.m5_spec() == self.m5_spec(),
            ba.m6_spec() == self.m6_spec(),
            ab.m1_spec() == self.m1_spec().push(a).push(b),
            ba.m1_spec() == self.m1_spec().push(b).push(a),
        ensures
            ab.value_spec() == ba.value_spec(),
    {
        broadcast use vstd::seq_lib::group_to_multiset_ensures;

        assert(ab.m1_spec().to_multiset() =~= ba.m1_spec().to_multiset());
        ab.lemma_order_independent(ba);
    }

    /// Applying a modifier to slot 1 and then removing it returns the
    /// aggregator to its pre-apply state as far as `get` and `has` can
    /// observe.
    pub proof fn lemma_apply_remove_roundtrip_m1(
        self,
        applied: Self,
        removed: Self,
        value: M1,
    )
        requires
            applied.base_spec() == self.base_spec(),
            applied.pipeline_spec() == self.pipeline_spec(),
            applied.m2_spec() == self.m2_spec(),
            applied.m3_spec() == self.m3_spec(),
            applied.m4_spec() == self.m4_spec(),
            applied.m5_spec() == self.m5_spec(),
            applied.m6_spec() == self.m6_spec(),
            applied.m1_spec() == self.m1_spec().push(value),
            removed.base_spec() == applied.base_spec(),
            removed.pipeline_spec() == applied.pipeline_spec(),
            removed.m2_spec() == applied.m2_spec(),
            removed.m3_spec() == applied.m3_spec(),
            removed.m4_spec() == applied.m4_spec(),
            removed.m5_spec() == applied.m5_spec(),
            removed.m6_spec() == applied.m6_spec(),
            removed.m1_spec().to_multiset() == applied.m1_spec().to_multiset().remove(
                value,
            ),
        ensures
            removed.value_spec() == self.value_spec(),
            forall|x: M1| removed.m1_spec().contains(x) == self.m1_spec().contains(x),
    {
        broadcast use vstd::seq_lib::group_to_multiset_ensures;

        assert(applied.m1_spec().to_multiset() == self.m1_spec().to_multiset().insert(value));
        assert(removed.m1_spec().to_multiset() =~= self.m1_spec().to_multiset());
        self.pipeline_spec().lemma_eval_permutation(
            self.base_spec(),
            removed.m1_spec(),
            removed.m2_spec(),
            removed.m3_spec(),
            removed.m4_spec(),
            removed.m5_spec(),
            removed.m6_spec(),
            self.m1_spec(),
            self.m2_spec(),
            self.m3_spec(),
            self.m4_spec(),
            self.m5_spec(),
            self.m6_spec(),
        );
        assert forall|x: M1| removed.m1_spec().contains(x) == self.m1_spec().contains(
            x,
        ) by {
            assert(removed.m1_spec().contains(x) <==> removed.m1_spec().to_multiset().count(x)
                > 0);
            assert(self.m1_spec().contains(x) <==> self.m1_spec().to_multiset().count(x) > 0);
        }
    }

    /// Applying a modifier to slot 2 and then removing it returns the
    /// aggregator to its pre-apply state as far as `get` and `has` can
    /// observe.
    pub proof fn lemma_apply_remove_roundtrip_m2(
        self,
        applied: Self,
        removed: Self,
        value: M2,
    )
        requires
            applied.base_spec() == self.base_spec(),
            applied.pipeline_spec() == self.pipeline_spec(),
            applied.m1_spec() == self.m1_spec(),
            applied.m3_spec() == self.m3_spec(),
            applied.m4_spec() == self.m4_spec(),
            applied.m5_spec() == self.m5_spec(),
            applied.m6_spec() == self.m6_spec(),
            applied.m2_spec() == self.m2_spec().push(value),
            removed.base_spec() == applied.base_spec(),
            removed.pipeline_spec() == applied.pipeline_spec(),
            removed.m1_spec() == applied.m1_spec(),
            removed.m3_spec() == applied.m3_spec(),
            removed.m4_spec() == applied.m4_spec(),
            removed.m5_spec() == applied.m5_spec(),
            removed.m6_spec() == applied.m6_spec(),
            removed.m2_spec().to_multiset() == applied.m2_spec().to_multiset().remove(
                value,
            ),
        ensures
            removed.value_spec() == self.value_spec(),
            forall|x: M2| removed.m2_spec().contains(x) == self.m2_spec().contains(x),
    {
        broadcast use vstd::seq_lib::group_to_multiset_ensures;

        assert(applied.m2_spec().to_multiset() == self.m2_spec().to_multiset().insert(value));
        assert(removed.m2_spec().to_multiset() =~= self.m2_spec().to_multiset());
        self.pipeline_spec().lemma_eval_permutation(
            self.base_spec(),
            removed.m1_spec(),
            removed.m2_spec(),
            removed.m3_spec(),
            removed.m4_spec(),
            removed.m5_spec(),
            removed.m6_spec(),
            self.m1_spec(),
            self.m2_spec(),
            self.m3_spec(),
            self.m4_spec(),
            self.m5_spec(),
            self.m6_spec(),
        );
        assert forall|x: M2| removed.m2_spec().contains(x) == self.m2_spec().contains(
            x,
        ) by {
            assert(removed.m2_spec().contains(x) <==> removed.m2_spec().to_multiset().count(x)
                > 0);
            assert(self.m2_spec().contains(x) <==> self.m2_spec().to_multiset().count(x) > 0);
        }
    }

    /// Applying a modifier to slot 3 and then removing it returns the
    /// aggregator to its pre-apply state as far as `get` and `has` can
    /// observe.
    pub proof fn lemma_apply_remove_roundtrip_m3(
        self,
        applied: Self,
        removed: Self,
        value: M3,
    )
        requires
            applied.base_spec() == self.base_spec(),
            applied.pipeline_spec() == self.pipeline_spec(),
            applied.m1_spec() == self.m1_spec(),
            applied.m2_spec() == self.m2_spec(),
            applied.m4_spec() == self.m4_spec(),
            applied.m5_spec() == self.m5_spec(),
            applied.m6_spec() == self.m6_spec(),
            applied.m3_spec() == self.m3_spec().push(value),
            removed.base_spec() == applied.base_spec(),
            removed.pipeline_spec() == applied.pipeline_spec(),
            removed.m1_spec() == applied.m1_spec(),
            removed.m2_spec() == applied.m2_spec(),
            removed.m4_spec() == applied.m4_spec(),
            removed.m5_spec() == applied.m5_spec(),
            removed.m6_spec() == applied.m6_spec(),
            removed.m3_spec().to_multiset() == applied.m3_spec().to_multiset().remove(
                value,
            ),
        ensures
            removed.value_spec() == self.value_spec(),
            forall|x: M3| removed.m3_spec().contains(x) == self.m3_spec().contains(x),
    {
        broadcast use vstd::seq_lib::group_to_multiset_ensures;

        assert(applied.m3_spec().to_multiset() == self.m3_spec().to_multiset().insert(value));
        assert(removed.m3_spec().to_multiset() =~= self.m3_spec().to_multiset());
        self.pipeline_spec().lemma_eval_permutation(
            self.base_spec(),
            removed.m1_spec(),
            removed.m2_spec(),
            removed.m3_spec(),
            removed.m4_spec(),
            removed.m5_spec(),
            removed.m6_spec(),
            self.m1_spec(),
            self.m2_spec(),
            self.m3_spec(),
            self.m4_spec(),
            self.m5_spec(),
            self.m6_spec(),
        );
        assert forall|x: M3| removed.m3_spec().contains(x) == self.m3_spec().contains(
            x,
        ) by {
            assert(removed.m3_spec().contains(x) <==> removed.m3_spec().to_multiset().count(x)
                > 0);
            assert(self.m3_spec().contains(x) <==> self.m3_spec().to_multiset().count(x) > 0);
        }
    }

    /// Applying a modifier to slot 4 and then removing it returns the
    /// aggregator to its pre-apply state as far as `get` and `has` can
    /// observe.
    pub proof fn lemma_apply_remove_roundtrip_m4(
        self,
        applied: Self,
        removed: Self,
        value: M4,
    )
        requires
            applied.base_spec() == self.base_spec(),
            applied.pipeline_spec() == self.pipeline_spec(),
            applied.m1_spec() == self.m1_spec(),
            applied.m2_spec() == self.m2_spec(),
            applied.m3_spec() == self.m3_spec(),
            applied.m5_spec() == self.m5_spec(),
            applied.m6_spec() == self.m6_spec(),
            applied.m4_spec() == self.m4_spec().push(value),
            removed.base_spec() == applied.base_spec(),
            removed.pipeline_spec() == applied.pipeline_spec(),
            removed.m1_spec() == applied.m1_spec(),
            removed.m2_spec() == applied.m2_spec(),
            removed.m3_spec() == applied.m3_spec(),
            removed.m5_spec() == applied.m5_spec(),
            removed.m6_spec() == applied.m6_spec(),
            removed.m4_spec().to_multiset() == applied.m4_spec().to_multiset().remove(
                value,
            ),
        ensures
            removed.value_spec() == self.value_spec(),
            forall|x: M4| removed.m4_spec().contains(x) == self.m4_spec().contains(x),
    {
        broadcast use vstd::seq_lib::group_to_multiset_ensures;

        assert(applied.m4_spec().to_multiset() == self.m4_spec().to_multiset().insert(value));
        assert(removed.m4_spec().to_multiset() =~= self.m4_spec().to_multiset());
        self.pipeline_spec().lemma_eval_permutation(
            self.base_spec(),
            removed.m1_spec(),
            removed.m2_spec(),
            removed.m3_spec(),
            removed.m4_spec(),
            removed.m5_spec(),
            removed.m6_spec(),
            self.m1_spec(),
            self.m2_spec(),
            self.m3_spec(),
            self.m4_spec(),
            self.m5_spec(),
            self.m6_spec(),
        );
        assert forall|x: M4| removed.m4_spec().contains(x) == self.m4_spec().contains(
            x,
        ) by {
            assert(removed.m4_spec().contains(x) <==> removed.m4_spec().to_multiset().count(x)
                > 0);
            assert(self.m4_spec().contains(x) <==> self.m4_spec().to_multiset().count(x) > 0);
        }
    }

    /// Applying a modifier to slot 5 and then removing it returns the
    /// aggregator to its pre-apply state as far as `get` and `has` can
    /// observe.
    pub proof fn lemma_apply_remove_roundtrip_m5(
        self,
        applied: Self,
        removed: Self,
        value: M5,
    )
        requires
            applied.base_spec() == self.base_spec(),
            applied.pipeline_spec() == self.pipeline_spec(),
            applied.m1_spec() == self.m1_spec(),
            applied.m2_spec() == self.m2_spec(),
            applied.m3_spec() == self.m3_spec(),
            applied.m4_spec() == self.m4_spec(),
            applied.m6_spec() == self.m6_spec(),
            applied.m5_spec() == self.m5_spec().push(value),
            removed.base_spec() == applied.base_spec(),
            removed.pipeline_spec() == applied.pipeline_spec(),
            removed.m1_spec() == applied.m1_spec(),
            removed.m2_spec() == applied.m2_spec(),
            removed.m3_spec() == applied.m3_spec(),
            removed.m4_spec() == applied.m4_spec(),
            removed.m6_spec() == applied.m6_spec(),
            removed.m5_spec().to_multiset() == applied.m5_spec().to_multiset().remove(
                value,
            ),
        ensures
            removed.value_spec() == self.value_spec(),
            forall|x: M5| removed.m5_spec().contains(x) == self.m5_spec().contains(x),
    {
        broadcast use vstd::seq_lib::group_to_multiset_ensures;

        assert(applied.m5_spec().to_multiset() == self.m5_spec().to_multiset().insert(value));
        assert(removed.m5_spec().to_multiset() =~= self.m5_spec().to_multiset());
        self.pipeline_spec().lemma_eval_permutation(
            self.base_spec(),
            removed.m1_spec(),
            removed.m2_spec(),
            removed.m3_spec(),
            removed.m4_spec(),
            removed.m5_spec(),
            removed.m6_spec(),
            self.m1_spec(),
            self.m2_spec(),
            self.m3_spec(),
            self.m4_spec(),
            self.m5_spec(),
            self.m6_spec(),
        );
        assert forall|x: M5| removed.m5_spec().contains(x) == self.m5_spec().contains(
            x,
        ) by {
            assert(removed.m5_spec().contains(x) <==> removed.m5_spec().to_multiset().count(x)
                > 0);
            assert(self.m5_spec().contains(x) <==> self.m5_spec().to_multiset().count(x) > 0);
        }
    }

    /// Applying a modifier to slot 6 and then removing it returns the
    /// aggregator to its pre-apply state as far as `get` and `has` can
    /// observe.
    pub proof fn lemma_apply_remove_roundtrip_m6(
        self,
        applied: Self,
        removed: Self,
        value: M6,
    )
        requires
            applied.base_spec() == self.base_spec(),
            applied.pipeline_spec() == self.pipeline_spec(),
            applied.m1_spec() == self.m1_spec(),
            applied.m2_spec() == self.m2_spec(),
            applied.m3_spec() == self.m3_spec(),
            applied.m4_spec() == self.m4_spec(),
            applied.m5_spec() == self.m5_spec(),
            applied.m6_spec() == self.m6_spec().push(value),
            removed.base_spec() == applied.base_spec(),
            removed.pipeline_spec() == applied.pipeline_spec(),
            removed.m1_spec() == applied.m1_spec(),
            removed.m2_spec() == applied.m2_spec(),
            removed.m3_spec() == applied.m3_spec(),
            removed.m4_spec() == applied.m4_spec(),
            removed.m5_spec() == applied.m5_spec(),
            removed.m6_spec().to_multiset() == applied.m6_spec().to_multiset().remove(
                value,
            ),
        ensures
            removed.value_spec() == self.value_spec(),
            forall|x: M6| removed.m6_spec().contains(x) == self.m6_spec().contains(x),
    {
        broadcast use vstd::seq_lib::group_to_multiset_ensures;

        assert(applied.m6_spec().to_multiset() == self.m6_spec().to_multiset().insert(value));
        assert(removed.m6_spec().to_multiset() =~= self.m6_spec().to_multiset());
        self.pipeline_spec().lemma_eval_permutation(
            self.base_spec(),
            removed.m1_spec(),
            removed.m2_spec(),
            removed.m3_spec(),
            removed.m4_spec(),
            removed.m5_spec(),
            removed.m6_spec(),
            self.m1_spec(),
            self.m2_spec(),
            self.m3_spec(),
            self.m4_spec(),
            self.m5_spec(),
            self.m6_spec(),
        );
        assert forall|x: M6| removed.m6_spec().contains(x) == self.m6_spec().contains(
            x,
        ) by {
            assert(removed.m6_spec().contains(x) <==> removed.m6_spec().to_multiset().count(x)
                > 0);
            assert(self.m6_spec().contains(x) <==> self.m6_spec().to_multiset().count(x) > 0);
        }
    }

}

/// An aggregator over 7 modifier categories: one base value, one collection per category,
/// and the pipeline that folds them together. The base and the pipeline
/// are fixed at construction; the only mutable state is category
/// membership.
pub struct Stat7<Marker, M1, M2, M3, M4, M5, M6, M7, F> where
    Marker: StatMarker,
    M1: Modifier,
    M2: Modifier,
    M3: Modifier,
    M4: Modifier,
    M5: Modifier,
    M6: Modifier,
    M7: Modifier,
    F: Pipeline7<Marker, M1, M2, M3, M4, M5, M6, M7>,
 {
    base: Marker::Raw,
    m1: Vec<M1>,
    m2: Vec<M2>,
    m3: Vec<M3>,
    m4: Vec<M4>,
    m5: Vec<M5>,
    m6: Vec<M6>,
    m7: Vec<M7>,
    f: F,
}

impl<Marker, M1, M2, M3, M4, M5, M6, M7, F> Stat7<Marker, M1, M2, M3, M4, M5, M6, M7, F> where
    Marker: StatMarker,
    M1: Modifier,
    M2: Modifier,
    M3: Modifier,
    M4: Modifier,
    M5: Modifier,
    M6: Modifier,
    M7: Modifier,
    F: Pipeline7<Marker, M1, M2, M3, M4, M5, M6, M7>,
 {
    /// The immutable base value.
    pub closed spec fn base_spec(self) -> Marker::Raw {
        self.base
    }

    /// Slot 1's modifiers, in storage order.
    pub closed spec fn m1_spec(self) -> Seq<M1> {
        self.m1@
    }

    /// Slot 2's modifiers, in storage order.
    pub closed spec fn m2_spec(self) -> Seq<M2> {
        self.m2@
    }

    /// Slot 3's modifiers, in storage order.
    pub closed spec fn m3_spec(self) -> Seq<M3> {
        self.m3@
    }

    /// Slot 4's modifiers, in storage order.
    pub closed spec fn m4_spec(self) -> Seq<M4> {
        self.m4@
    }

    /// Slot 5's modifiers, in storage order.
    pub closed spec fn m5_spec(self) -> Seq<M5> {
        self.m5@
    }

    /// Slot 6's modifiers, in storage order.
    pub closed spec fn m6_spec(self) -> Seq<M6> {
        self.m6@
    }

    /// Slot 7's modifiers, in storage order.
    pub closed spec fn m7_spec(self) -> Seq<M7> {
        self.m7@
    }

    /// The pipeline supplied at construction.
    pub closed spec fn pipeline_spec(self) -> F {
        self.f
    }

    /// The value `get` recomputes: the pipeline applied to the base and
    /// the current collections.
    pub open spec fn value_spec(self) -> Marker::Raw {
        self.pipeline_spec().eval_spec(self.base_spec(), self.m1_spec(), self.m2_spec(), self.m3_spec(), self.m4_spec(), self.m5_spec(), self.m6_spec(), self.m7_spec())
    }

    /// Creates an aggregator with no modifiers.
    pub fn new(base: Marker::Raw, f: F) -> (r: Self)
        ensures
            r.base_spec() == base,
            r.pipeline_spec() == f,
            r.m1_spec() == Seq::<M1>::empty(),
            r.m2_spec() == Seq::<M2>::empty(),
            r.m3_spec() == Seq::<M3>::empty(),
            r.m4_spec() == Seq::<M4>::empty(),
            r.m5_spec() == Seq::<M5>::empty(),
            r.m6_spec() == Seq::<M6>::empty(),
            r.m7_spec() == Seq::<M7>::empty(),
    {
        Stat7 { base, m1: Vec::new(), m2: Vec::new(), m3: Vec::new(), m4: Vec::new(), m5: Vec::new(), m6: Vec::new(), m7: Vec::new(), f }
    }

    /// Inserts a modifier into slot 1. Duplicates may coexist and all
    /// contribute.
    pub fn apply_m1(&mut self, value: M1)
        ensures
            final(self).base_spec() == old(self).base_spec(),
            final(self).pipeline_spec() == old(self).pipeline_spec(),
            final(self).m2_spec() == old(self).m2_spec(),
            final(self).m3_spec() == old(self).m3_spec(),
            final(self).m4_spec() == old(self).m4_spec(),
            final(self).m5_spec() == old(self).m5_spec(),
            final(self).m6_spec() == old(self).m6_spec(),
            final(self).m7_spec() == old(self).m7_spec(),
            final(self).m1_spec() == old(self).m1_spec().push(value),
    {
        self.m1.push(value);
    }

    /// Inserts a modifier into slot 2. Duplicates may coexist and all
    /// contribute.
    pub fn apply_m2(&mut self, value: M2)
        ensures
            final(self).base_spec() == old(self).base_spec(),
            final(self).pipeline_spec() == old(self).pipeline_spec(),
            final(self).m1_spec() == old(self).m1_spec(),
            final(self).m3_spec() == old(self).m3_spec(),
            final(self).m4_spec() == old(self).m4_spec(),
            final(self).m5_spec() == old(self).m5_spec(),
            final(self).m6_spec() == old(self).m6_spec(),
            final(self).m7_spec() == old(self).m7_spec(),
            final(self).m2_spec() == old(self).m2_spec().push(value),
    {
        self.m2.push(value);
    }

    /// Inserts a modifier into slot 3. Duplicates may coexist and all
    /// contribute.
    pub fn apply_m3(&mut self, value: M3)
        ensures
            final(self).base_spec() == old(self).base_spec(),
            final(self).pipeline_spec() == old(self).pipeline_spec(),
            final(self).m1_spec() == old(self).m1_spec(),
            final(self).m2_spec() == old(self).m2_spec(),
            final(self).m4_spec() == old(self).m4_spec(),
            final(self).m5_spec() == old(self).m5_spec(),
            final(self).m6_spec() == old(self).m6_spec(),
            final(self).m7_spec() == old(self).m7_spec(),
            final(self).m3_spec() == old(self).m3_spec().push(value),
    {
        self.m3.push(value);
    }

    /// Inserts a modifier into slot 4. Duplicates may coexist and all
    /// contribute.
    pub fn apply_m4(&mut self, value: M4)
        ensures
            final(self).base_spec() == old(self).base_spec(),
            final(self).pipeline_spec() == old(self).pipeline_spec(),
            final(self).m1_spec() == old(self).m1_spec(),
            final(self).m2_spec() == old(self).m2_spec(),
            final(self).m3_spec() == old(self).m3_spec(),
            final(self).m5_spec() == old(self).m5_spec(),
            final(self).m6_spec() == old(self).m6_spec(),
            final(self).m7_spec() == old(self).m7_spec(),
            final(self).m4_spec() == old(self).m4_spec().push(value),
    {
        self.m4.push(value);
    }

    /// Inserts a modifier into slot 5. Duplicates may coexist and all
    /// contribute.
    pub fn apply_m5(&mut self, value: M5)
        ensures
            final(self).base_spec() == old(self).base_spec(),
            final(self).pipeline_spec() == old(self).pipeline_spec(),
            final(self).m1_spec() == old(self).m1_spec(),
            final(self).m2_spec() == old(self).m2_spec(),
            final(self).m3_spec() == old(self).m3_spec(),
            final(self).m4_spec() == old(self).m4_spec(),
            final(self).m6_spec() == old(self).m6_spec(),
            final(self).m7_spec() == old(self).m7_spec(),
            final(self).m5_spec() == old(self).m5_spec().push(value),
    {
        self.m5.push(value);
    }

    /// Inserts a modifier into slot 6. Duplicates may coexist and all
    /// contribute.
    pub fn apply_m6(&mut self, value: M6)
        ensures
            final(self).base_spec() == old(self).base_spec(),
            final(self).pipeline_spec() == old(self).pipeline_spec(),
            final(self).m1_spec() == old(self).m1_spec(),
            final(self).m2_spec() == old(self).m2_spec(),
            final(self).m3_spec() == old(self).m3_spec(),
            final(self).m4_spec() == old(self).m4_spec(),
            final(self).m5_spec() == old(self).m5_spec(),
            final(self).m7_spec() == old(self).m7_spec(),
            final(self).m6_spec() == old(self).m6_spec().push(value),
    {
        self.m6.push(value);
    }

    /// Inserts a modifier into slot 7. Duplicates may coexist and all
    /// contribute.
    pub fn apply_m7(&mut self, value: M7)
        ensures
            final(self).base_spec() == old(self).base_spec(),
            final(self).pipeline_spec() == old(self).pipeline_spec(),
            final(self).m1_spec() == old(self).m1_spec(),
            final(self).m2_spec() == old(self).m2_spec(),
            final(self).m3_spec() == old(self).m3_spec(),
            final(self).m4_spec() == old(self).m4_spec(),
            final(self).m5_spec() == old(self).m5_spec(),
            final(self).m6_spec() == old(self).m6_spec(),
            final(self).m7_spec() == old(self).m7_spec().push(value),
    {
        self.m7.push(value);
    }

    /// Removes one occurrence equal to `value` from slot 1 by
    /// swap-removal; a no-op, not an error, if no equal modifier is
    /// stored.
    pub fn remove_m1(&mut self, value: M1)
        ensures
            final(self).base_spec() == old(self).base_spec(),
            final(self).pipeline_spec() == old(self).pipeline_spec(),
            final(self).m2_spec() == old(self).m2_spec(),
            final(self).m3_spec() == old(self).m3_spec(),
            final(self).m4_spec() == old(self).m4_spec(),
            final(self).m5_spec() == old(self).m5_spec(),
            final(self).m6_spec() == old(self).m6_spec(),
            final(self).m7_spec() == old(self).m7_spec(),
            old(self).m1_spec().contains(value) ==> exists|i: int|
                0 <= i < old(self).m1_spec().len() && old(self).m1_spec()[i] == value
                    && final(self).m1_spec() == old(self).m1_spec().update(
                    i,
                    old(self).m1_spec().last(),
                ).drop_last(),
            old(self).m1_spec().contains(value) ==> final(self).m1_spec().to_multiset() == old(
                self,
            ).m1_spec().to_multiset().remove(value),
            !old(self).m1_spec().contains(value) ==> final(self).m1_spec() == old(
                self,
            ).m1_spec(),
    {
        slot_remove_one(&mut self.m1, value);
    }

    /// Removes one occurrence equal to `value` from slot 2 by
    /// swap-removal; a no-op, not an error, if no equal modifier is
    /// stored.
    pub fn remove_m2(&mut self, value: M2)
        ensures
            final(self).base_spec() == old(self).base_spec(),
            final(self).pipeline_spec() == old(self).pipeline_spec(),
            final(self).m1_spec() == old(self).m1_spec(),
            final(self).m3_spec() == old(self).m3_spec(),
            final(self).m4_spec() == old(self).m4_spec(),
            final(self).m5_spec() == old(self).m5_spec(),
            final(self).m6_spec() == old(self).m6_spec(),
            final(self).m7_spec() == old(self).m7_spec(),
            old(self).m2_spec().contains(value) ==> exists|i: int|
                0 <= i < old(self).m2_spec().len() && old(self).m2_spec()[i] == value
                    && final(self).m2_spec() == old(self).m2_spec().update(
                    i,
                    old(self).m2_spec().last(),
                ).drop_last(),
            old(self).m2_spec().contains(value) ==> final(self).m2_spec().to_multiset() == old(
                self,
            ).m2_spec().to_multiset().remove(value),
            !old(self).m2_spec().contains(value) ==> final(self).m2_spec() == old(
                self,
            ).m2_spec(),
    {
        slot_remove_one(&mut self.m2, value);
    }

    /// Removes one occurrence equal to `value` from slot 3 by
    /// swap-removal; a no-op, not an error, if no equal modifier is
    /// stored.
    pub fn remove_m3(&mut self, value: M3)
        ensures
            final(self).base_spec() == old(self).base_spec(),
            final(self).pipeline_spec() == old(self).pipeline_spec(),
            final(self).m1_spec() == old(self).m1_spec(),
            final(self).m2_spec() == old(self).m2_spec(),
            final(self).m4_spec() == old(self).m4_spec(),
            final(self).m5_spec() == old(self).m5_spec(),
            final(self).m6_spec() == old(self).m6_spec(),
            final(self).m7_spec() == old(self).m7_spec(),
            old(self).m3_spec().contains(value) ==> exists|i: int|
                0 <= i < old(self).m3_spec().len() && old(self).m3_spec()[i] == value
                    && final(self).m3_spec() == old(self).m3_spec().update(
                    i,
                    old(self).m3_spec().last(),
                ).drop_last(),
            old(self).m3_spec().contains(value) ==> final(self).m3_spec().to_multiset() == old(
                self,
            ).m3_spec().to_multiset().remove(value),
            !old(self).m3_spec().contains(value) ==> final(self).m3_spec() == old(
                self,
            ).m3_spec(),
    {
        slot_remove_one(&mut self.m3, value);
    }

    /// Removes one occurrence equal to `value` from slot 4 by
    /// swap-removal; a no-op, not an error, if no equal modifier is
    /// stored.
    pub fn remove_m4(&mut self, value: M4)
        ensures
            final(self).base_spec() == old(self).base_spec(),
            final(self).pipeline_spec() == old(self).pipeline_spec(),
            final(self).m1_spec() == old(self).m1_spec(),
            final(self).m2_spec() == old(self).m2_spec(),
            final(self).m3_spec() == old(self).m3_spec(),
            final(self).m5_spec() == old(self).m5_spec(),
            final(self).m6_spec() == old(self).m6_spec(),
            final(self).m7_spec() == old(self).m7_spec(),
            old(self).m4_spec().contains(value) ==> exists|i: int|
                0 <= i < old(self).m4_spec().len() && old(self).m4_spec()[i] == value
                    && final(self).m4_spec() == old(self).m4_spec().update(
                    i,
                    old(self).m4_spec().last(),
                ).drop_last(),
            old(self).m4_spec().contains(value) ==> final(self).m4_spec().to_multiset() == old(
                self,
            ).m4_spec().to_multiset().remove(value),
            !old(self).m4_spec().contains(value) ==> final(self).m4_spec() == old(
                self,
            ).m4_spec(),
    {
        slot_remove_one(&mut self.m4, value);
    }

    /// Removes one occurrence equal to `value` from slot 5 by
    /// swap-removal; a no-op, not an error, if no equal modifier is
    /// stored.
    pub fn remove_m5(&mut self, value: M5)
        ensures
            final(self).base_spec() == old(self).base_spec(),
            final(self).pipeline_spec() == old(self).pipeline_spec(),
            final(self).m1_spec() == old(self).m1_spec(),
            final(self).m2_spec() == old(self).m2_spec(),
            final(self).m3_spec() == old(self).m3_spec(),
            final(self).m4_spec() == old(self).m4_spec(),
            final(self).m6_spec() == old(self).m6_spec(),
            final(self).m7_spec() == old(self).m7_spec(),
            old(self).m5_spec().contains(value) ==> exists|i: int|
                0 <= i < old(self).m5_spec().len() && old(self).m5_spec()[i] == value
                    && final(self).m5_spec() == old(self).m5_spec().update(
                    i,
                    old(self).m5_spec().last(),
                ).drop_last(),
            old(self).m5_spec().contains(value) ==> final(self).m5_spec().to_multiset() == old(
                self,
            ).m5_spec().to_multiset().remove(value),
            !old(self).m5_spec().contains(value) ==> final(self).m5_spec() == old(
                self,
            ).m5_spec(),
    {
        slot_remove_one(&mut self.m5, value);
    }

    /// Removes one occurrence equal to `value` from slot 6 by
    /// swap-removal; a no-op, not an error, if no equal modifier is
    /// stored.
    pub fn remove_m6(&mut self, value: M6)
        ensures
            final(self).base_spec() == old(self).base_spec(),
            final(self).pipeline_spec() == old(self).pipeline_spec(),
            final(self).m1_spec() == old(self).m1_spec(),
            final(self).m2_spec() == old(self).m2_spec(),
            final(self).m3_spec() == old(self).m3_spec(),
            final(self).m4_spec() == old(self).m4_spec(),
            final(self).m5_spec() == old(self).m5_spec(),
            final(self).m7_spec() == old(self).m7_spec(),
            old(self).m6_spec().contains(value) ==> exists|i: int|
                0 <= i < old(self).m6_spec().len() && old(self).m6_spec()[i] == value
                    && final(self).m6_spec() == old(self).m6_spec().update(
                    i,
                    old(self).m6_spec().last(),
                ).drop_last(),
            old(self).m6_spec().contains(value) ==> final(self).m6_spec().to_multiset() == old(
                self,
            ).m6_spec().to_multiset().remove(value),
            !old(self).m6_spec().contains(value) ==> final(self).m6_spec() == old(
                self,
            ).m6_spec(),
    {
        slot_remove_one(&mut self.m6, value);
    }

    /// Removes one occurrence equal to `value` from slot 7 by
    /// swap-removal; a no-op, not an error, if no equal modifier is
    /// stored.
    pub fn remove_m7(&mut self, value: M7)
        ensures
            final(self).base_spec() == old(self).base_spec(),
            final(self).pipeline_spec() == old(self).pipeline_spec(),
            final(self).m1_spec() == old(self).m1_spec(),
            final(self).m2_spec() == old(self).m2_spec(),
            final(self).m3_spec() == old(self).m3_spec(),
            final(self).m4_spec() == old(self).m4_spec(),
            final(self).m5_spec() == old(self).m5_spec(),
            final(self).m6_spec() == old(self).m6_spec(),
            old(self).m7_spec().contains(value) ==> exists|i: int|
                0 <= i < old(self).m7_spec().len() && old(self).m7_spec()[i] == value
                    && final(self).m7_spec() == old(self).m7_spec().update(
                    i,
                    old(self).m7_spec().last(),
                ).drop_last(),
            old(self).m7_spec().contains(value) ==> final(self).m7_spec().to_multiset() == old(
                self,
            ).m7_spec().to_multiset().remove(value),
            !old(self).m7_spec().contains(value) ==> final(self).m7_spec() == old(
                self,
            ).m7_spec(),
    {
        slot_remove_one(&mut self.m7, value);
    }

    /// True if and only if a modifier equal to `value` is stored in slot
    /// 1.
    pub fn has_m1(&self, value: M1) -> (r: bool)
        ensures
            r == self.m1_spec().contains(value),
    {
        slot_contains(&self.m1, value)
    }

    /// True if and only if a modifier equal to `value` is stored in slot
    /// 2.
    pub fn has_m2(&self, value: M2) -> (r: bool)
        ensures
            r == self.m2_spec().contains(value),
    {
        slot_contains(&self.m2, value)
    }

    /// True if and only if a modifier equal to `value` is stored in slot
    /// 3.
    pub fn has_m3(&self, value: M3) -> (r: bool)
        ensures
            r == self.m3_spec().contains(value),
    {
        slot_contains(&self.m3, value)
    }

    /// True if and only if a modifier equal to `value` is stored in slot
    /// 4.
    pub fn has_m4(&self, value: M4) -> (r: bool)
        ensures
            r == self.m4_spec().contains(value),
    {
        slot_contains(&self.m4, value)
    }

    /// True if and only if a modifier equal to `value` is stored in slot
    /// 5.
    pub fn has_m5(&self, value: M5) -> (r: bool)
        ensures
            r == self.m5_spec().contains(value),
    {
        slot_contains(&self.m5, value)
    }

    /// True if and only if a modifier equal to `value` is stored in slot
    /// 6.
    pub fn has_m6(&self, value: M6) -> (r: bool)
        ensures
            r == self.m6_spec().contains(value),
    {
        slot_contains(&self.m6, value)
    }

    /// True if and only if a modifier equal to `value` is stored in slot
    /// 7.
    pub fn has_m7(&self, value: M7) -> (r: bool)
        ensures
            r == self.m7_spec().contains(value),
    {
        slot_contains(&self.m7, value)
    }

    /// The immutable base value.
    pub fn base(&self) -> (r: Marker::Raw)
        ensures
            r == self.base_spec(),
    {
        self.base
    }

    /// Recomputes the stat from the base and the current collections.
    /// Nothing is cached: every call folds over the stored modifiers.
    pub fn get(&self) -> (r: Marker::Raw)
        ensures
            r == self.value_spec(),
    {
        self.f.eval(self.base, &self.m1, &self.m2, &self.m3, &self.m4, &self.m5, &self.m6, &self.m7)
    }

    /// Read-only view of slot 1 for enumeration.
    pub fn m1(&self) -> (r: &Vec<M1>)
        ensures
            r@ == self.m1_spec(),
    {
        &self.m1
    }

    /// Read-only view of slot 2 for enumeration.
    pub fn m2(&self) -> (r: &Vec<M2>)
        ensures
            r@ == self.m2_spec(),
    {
        &self.m2
    }

    /// Read-only view of slot 3 for enumeration.
    pub fn m3(&self) -> (r: &Vec<M3>)
        ensures
            r@ == self.m3_spec(),
    {
        &self.m3
    }

    /// Read-only view of slot 4 for enumeration.
    pub fn m4(&self) -> (r: &Vec<M4>)
        ensures
            r@ == self.m4_spec(),
    {
        &self.m4
    }

    /// Read-only view of slot 5 for enumeration.
    pub fn m5(&self) -> (r: &Vec<M5>)
        ensures
            r@ == self.m5_spec(),
    {
        &self.m5
    }

    /// Read-only view of slot 6 for enumeration.
    pub fn m6(&self) -> (r: &Vec<M6>)
        ensures
            r@ == self.m6_spec(),
    {
        &self.m6
    }

    /// Read-only view of slot 7 for enumeration.
    pub fn m7(&self) -> (r: &Vec<M7>)
        ensures
            r@ == self.m7_spec(),
    {
        &self.m7
    }

    /// Applying modifiers in either order leaves the computed value the
    /// same: two aggregators with the same base and pipeline whose slots
    /// agree as multisets agree on `get`.
    pub proof fn lemma_order_independent(self, other: Self)
        requires
            self.base_spec() == other.base_spec(),
            self.pipeline_spec() == other.pipeline_spec(),
            self.m1_spec().to_multiset() == other.m1_spec().to_multiset(),
            self.m2_spec().to_multiset() == other.m2_spec().to_multiset(),
            self.m3_spec().to_multiset() == other.m3_spec().to_multiset(),
            self.m4_spec().to_multiset() == other.m4_spec().to_multiset(),
            self.m5_spec().to_multiset() == other.m5_spec().to_multiset(),
            self.m6_spec().to_multiset() == other.m6_spec().to_multiset(),
            self.m7_spec().to_multiset() == other.m7_spec().to_multiset(),
        ensures
            self.value_spec() == other.value_spec(),
    {
        self.pipeline_spec().lemma_eval_permutation(
            self.base_spec(),
            self.m1_spec(),
            self.m2_spec(),
            self.m3_spec(),
            self.m4_spec(),
            self.m5_spec(),
            self.m6_spec(),
            self.m7_spec(),
            other.m1_spec(),
            other.m2_spec(),
            other.m3_spec(),
            other.m4_spec(),
            other.m5_spec(),
            other.m6_spec(),
            other.m7_spec(),
        );
    }

    /// The direct form of order independence for one slot: applying `a`
    /// then `b` to slot 1 yields the same computed value as applying `b`
    /// then `a`.
    pub proof fn lemma_apply_two_commute_m1(self, ab: Self, ba: Self, a: M1, b: M1)
        requires
            ab.base_spec() == self.base_spec(),
            ab.pipeline_spec() == self.pipeline_spec(),
            ba.base_spec() == self.base_spec(),
            ba.pipeline_spec() == self.pipeline_spec(),
            ab.m2_spec() == self.m2_spec(),
            ab.m3_spec() == self.m3_spec(),
            ab.m4_spec() == self.m4_spec(),
            ab.m5_spec() == self.m5_spec(),
            ab.m6_spec() == self.m6_spec(),
            ab.m7_spec() == self.m7_spec(),
            ba.m2_spec() == self.m2_spec(),
            ba.m3_spec() == self.m3_spec(),
            ba.m4_spec() == self.m4_spec(),
            ba.m5_spec() == self.m5_spec(),
            ba.m6_spec() == self.m6_spec(),
            ba.m7_spec() == self.m7_spec(),
            ab.m1_spec() == self.m1_spec().push(a).push(b),
            ba.m1_spec() == self.m1_spec().push(b).push(a),
        ensures
            ab.value_spec() == ba.value_spec(),
    {
        broadcast use vstd::seq_lib::group_to_multiset_ensures;

        assert(ab.m1_spec().to_multiset() =~= ba.m1_spec().to_multiset());
        ab.lemma_order_independent(ba);
    }

    /// Applying a modifier to slot 1 and then removing it returns the
    /// aggregator to its pre-apply state as far as `get` and `has` can
    /// observe.
    pub proof fn lemma_apply_remove_roundtrip_m1(
        self,
        applied: Self,
        removed: Self,
        value: M1,
    )
        requires
            applied.base_spec() == self.base_spec(),
            applied.pipeline_spec() == self.pipeline_spec(),
            applied.m2_spec() == self.m2_spec(),
            applied.m3_spec() == self.m3_spec(),
            applied.m4_spec() == self.m4_spec(),
            applied.m5_spec() == self.m5_spec(),
            applied.m6_spec() == self.m6_spec(),
            applied.m7_spec() == self.m7_spec(),
            applied.m1_spec() == self.m1_spec().push(value),
            removed.base_spec() == applied.base_spec(),
            removed.pipeline_spec() == applied.pipeline_spec(),
            removed.m2_spec() == applied.m2_spec(),
            removed.m3_spec() == applied.m3_spec(),
            removed.m4_spec() == applied.m4_spec(),
            removed.m5_spec() == applied.m5_spec(),
            removed.m6_spec() == applied.m6_spec(),
            removed.m7_spec() == applied.m7_spec(),
            removed.m1_spec().to_multiset() == applied.m1_spec().to_multiset().remove(
                value,
            ),
        ensures
            removed.value_spec() == self.value_spec(),
            forall|x: M1| removed.m1_spec().contains(x) == self.m1_spec().contains(x),
    {
        broadcast use vstd::seq_lib::group_to_multiset_ensures;

        assert(applied.m1_spec().to_multiset() == self.m1_spec().to_multiset().insert(value));
        assert(removed.m1_spec().to_multiset() =~= self.m1_spec().to_multiset());
        self.pipeline_spec().lemma_eval_permutation(
            self.base_spec(),
            removed.m1_spec(),
            removed.m2_spec(),
            removed.m3_spec(),
            removed.m4_spec(),
            removed.m5_spec(),
            removed.m6_spec(),
            removed.m7_spec(),
            self.m1_spec(),
            self.m2_spec(),
            self.m3_spec(),
            self.m4_spec(),
            self.m5_spec(),
            self.m6_spec(),
            self.m7_spec(),
        );
        assert forall|x: M1| removed.m1_spec().contains(x) == self.m1_spec().contains(
            x,
        ) by {
            assert(removed.m1_spec().contains(x) <==> removed.m1_spec().to_multiset().count(x)
                > 0);
            assert(self.m1_spec().contains(x) <==> self.m1_spec().to_multiset().count(x) > 0);
        }
    }

    /// Applying a modifier to slot 2 and then removing it returns the
    /// aggregator to its pre-apply state as far as `get` and `has` can
    /// observe.
    pub proof fn lemma_apply_remove_roundtrip_m2(
        self,
        applied: Self,
        removed: Self,
        value: M2,
    )
        requires
            applied.base_spec() == self.base_spec(),
            applied.pipeline_spec() == self.pipeline_spec(),
            applied.m1_spec() == self.m1_spec(),
            applied.m3_spec() == self.m3_spec(),
            applied.m4_spec() == self.m4_spec(),
            applied.m5_spec() == self.m5_spec(),
            applied.m6_spec() == self.m6_spec(),
            applied.m7_spec() == self.m7_spec(),
            applied.m2_spec() == self.m2_spec().push(value),
            removed.base_spec() == applied.base_spec(),
            removed.pipeline_spec() == applied.pipeline_spec(),
            removed.m1_spec() == applied.m1_spec(),
            removed.m3_spec() == applied.m3_spec(),
            removed.m4_spec() == applied.m4_spec(),
            removed.m5_spec() == applied.m5_spec(),
            removed.m6_spec() == applied.m6_spec(),
            removed.m7_spec() == applied.m7_spec(),
            removed.m2_spec().to_multiset() == applied.m2_spec().to_multiset().remove(
                value,
            ),
        ensures
            removed.value_spec() == self.value_spec(),
            forall|x: M2| removed.m2_spec().contains(x) == self.m2_spec().contains(x),
    {
        broadcast use vstd::seq_lib::group_to_multiset_ensures;

        assert(applied.m2_spec().to_multiset() == self.m2_spec().to_multiset().insert(value));
        assert(removed.m2_spec().to_multiset() =~= self.m2_spec().to_multiset());
        self.pipeline_spec().lemma_eval_permutation(
            self.base_spec(),
            removed.m1_spec(),
            removed.m2_spec(),
            removed.m3_spec(),
            removed.m4_spec(),
            removed.m5_spec(),
            removed.m6_spec(),
            removed.m7_spec(),
            self.m1_spec(),
            self.m2_spec(),
            self.m3_spec(),
            self.m4_spec(),
            self.m5_spec(),
            self.m6_spec(),
            self.m7_spec(),
        );
        assert forall|x: M2| removed.m2_spec().contains(x) == self.m2_spec().contains(
            x,
        ) by {
            assert(removed.m2_spec().contains(x) <==> removed.m2_spec().to_multiset().count(x)
                > 0);
            assert(self.m2_spec().contains(x) <==> self.m2_spec().to_multiset().count(x) > 0);
        }
    }

    /// Applying a modifier to slot 3 and then removing it returns the
    /// aggregator to its pre-apply state as far as `get` and `has` can
    /// observe.
    pub proof fn lemma_apply_remove_roundtrip_m3(
        self,
        applied: Self,
        removed: Self,
        value: M3,
    )
        requires
            applied.base_spec() == self.base_spec(),
            applied.pipeline_spec() == self.pipeline_spec(),
            applied.m1_spec() == self.m1_spec(),
            applied.m2_spec() == self.m2_spec(),
            applied.m4_spec() == self.m4_spec(),
            applied.m5_spec() == self.m5_spec(),
            applied.m6_spec() == self.m6_spec(),
            applied.m7_spec() == self.m7_spec(),
            applied.m3_spec() == self.m3_spec().push(value),
            removed.base_spec() == applied.base_spec(),
            removed.pipeline_spec() == applied.pipeline_spec(),
            removed.m1_spec() == applied.m1_spec(),
            removed.m2_spec() == applied.m2_spec(),
            removed.m4_spec() == applied.m4_spec(),
            removed.m5_spec() == applied.m5_spec(),
            removed.m6_spec() == applied.m6_spec(),
            removed.m7_spec() == applied.m7_spec(),
            removed.m3_spec().to_multiset() == applied.m3_spec().to_multiset().remove(
                value,
            ),
        ensures
            removed.value_spec() == self.value_spec(),
            forall|x: M3| removed.m3_spec().contains(x) == self.m3_spec().contains(x),
    {
        broadcast use vstd::seq_lib::group_to_multiset_ensures;

        assert(applied.m3_spec().to_multiset() == self.m3_spec().to_multiset().insert(value));
        assert(removed.m3_spec().to_multiset() =~= self.m3_spec().to_multiset());
        self.pipeline_spec().lemma_eval_permutation(
            self.base_spec(),
            removed.m1_spec(),
            removed.m2_spec(),
            removed.m3_spec(),
            removed.m4_spec(),
            removed.m5_spec(),
            removed.m6_spec(),
            removed.m7_spec(),
            self.m1_spec(),
            self.m2_spec(),
            self.m3_spec(),
            self.m4_spec(),
            self.m5_spec(),
            self.m6_spec(),
            self.m7_spec(),
        );
        assert forall|x: M3| removed.m3_spec().contains(x) == self.m3_spec().contains(
            x,
        ) by {
            assert(removed.m3_spec().contains(x) <==> removed.m3_spec().to_multiset().count(x)
                > 0);
            assert(self.m3_spec().contains(x) <==> self.m3_spec().to_multiset().count(x) > 0);
        }
    }

    /// Applying a modifier to slot 4 and then removing it returns the
    /// aggregator to its pre-apply state as far as `get` and `has` can
    /// observe.
    pub proof fn lemma_apply_remove_roundtrip_m4(
        self,
        applied: Self,
        removed: Self,
        value: M4,
    )
        requires
            applied.base_spec() == self.base_spec(),
            applied.pipeline_spec() == self.pipeline_spec(),
            applied.m1_spec() == self.m1_spec(),
            applied.m2_spec() == self.m2_spec(),
            applied.m3_spec() == self.m3_spec(),
            applied.m5_spec() == self.m5_spec(),
            applied.m6_spec() == self.m6_spec(),
            applied.m7_spec() == self.m7_spec(),
            applied.m4_spec() == self.m4_spec().push(value),
            removed.base_spec() == applied.base_spec(),
            removed.pipeline_spec() == applied.pipeline_spec(),
            removed.m1_spec() == applied.m1_spec(),
            removed.m2_spec() == applied.m2_spec(),
            removed.m3_spec() == applied.m3_spec(),
            removed.m5_spec() == applied.m5_spec(),
            removed.m6_spec() == applied.m6_spec(),
            removed.m7_spec() == applied.m7_spec(),
            removed.m4_spec().to_multiset() == applied.m4_spec().to_multiset().remove(
                value,
            ),
        ensures
            removed.value_spec() == self.value_spec(),
            forall|x: M4| removed.m4_spec().contains(x) == self.m4_spec().contains(x),
    {
        broadcast use vstd::seq_lib::group_to_multiset_ensures;

        assert(applied.m4_spec().to_multiset() == self.m4_spec().to_multiset().insert(value));
        assert(removed.m4_spec().to_multiset() =~= self.m4_spec().to_multiset());
        self.pipeline_spec().lemma_eval_permutation(
            self.base_spec(),
            removed.m1_spec(),
            removed.m2_spec(),
            removed.m3_spec(),
            removed.m4_spec(),
            removed.m5_spec(),
            removed.m6_spec(),
            removed.m7_spec(),
            self.m1_spec(),
            self.m2_spec(),
            self.m3_spec(),
            self.m4_spec(),
            self.m5_spec(),
            self.m6_spec(),
            self.m7_spec(),
        );
        assert forall|x: M4| removed.m4_spec().contains(x) == self.m4_spec().contains(
            x,
        ) by {
            assert(removed.m4_spec().contains(x) <==> removed.m4_spec().to_multiset().count(x)
                > 0);
            assert(self.m4_spec().contains(x) <==> self.m4_spec().to_multiset().count(x) > 0);
        }
    }

    /// Applying a modifier to slot 5 and then removing it returns the
    /// aggregator to its pre-apply state as far as `get` and `has` can
    /// observe.
    pub proof fn lemma_apply_remove_roundtrip_m5(
        self,
        applied: Self,
        removed: Self,
        value: M5,
    )
        requires
            applied.base_spec() == self.base_spec(),
            applied.pipeline_spec() == self.pipeline_spec(),
            applied.m1_spec() == self.m1_spec(),
            applied.m2_spec() == self.m2_spec(),
            applied.m3_spec() == self.m3_spec(),
            applied.m4_spec() == self.m4_spec(),
            applied.m6_spec() == self.m6_spec(),
            applied.m7_spec() == self.m7_spec(),
            applied.m5_spec() == self.m5_spec().push(value),
            removed.base_spec() == applied.base_spec(),
            removed.pipeline_spec() == applied.pipeline_spec(),
            removed.m1_spec() == applied.m1_spec(),
            removed.m2_spec() == applied.m2_spec(),
            removed.m3_spec() == applied.m3_spec(),
            removed.m4_spec() == applied.m4_spec(),
            removed.m6_spec() == applied.m6_spec(),
            removed.m7_spec() == applied.m7_spec(),
            removed.m5_spec().to_multiset() == applied.m5_spec().to_multiset().remove(
                value,
            ),
        ensures
            removed.value_spec() == self.value_spec(),
            forall|x: M5| removed.m5_spec().contains(x) == self.m5_spec().contains(x),
    {
        broadcast use vstd::seq_lib::group_to_multiset_ensures;

        assert(applied.m5_spec().to_multiset() == self.m5_spec().to_multiset().insert(value));
        assert(removed.m5_spec().to_multiset() =~= self.m5_spec().to_multiset());
        self.pipeline_spec().lemma_eval_permutation(
            self.base_spec(),
            removed.m1_spec(),
            removed.m2_spec(),
            removed.m3_spec(),
            removed.m4_spec(),
            removed.m5_spec(),
            removed.m6_spec(),
            removed.m7_spec(),
            self.m1_spec(),
            self.m2_spec(),
            self.m3_spec(),
            self.m4_spec(),
            self.m5_spec(),
            self.m6_spec(),
            self.m7_spec(),
        );
        assert forall|x: M5| removed.m5_spec().contains(x) == self.m5_spec().contains(
            x,
        ) by {
            assert(removed.m5_spec().contains(x) <==> removed.m5_spec().to_multiset().count(x)
                > 0);
            assert(self.m5_spec().contains(x) <==> self.m5_spec().to_multiset().count(x) > 0);
        }
    }

    /// Applying a modifier to slot 6 and then removing it returns the
    /// aggregator to its pre-apply state as far as `get` and `has` can
    /// observe.
    pub proof fn lemma_apply_remove_roundtrip_m6(
        self,
        applied: Self,
        removed: Self,
        value: M6,
    )
        requires
            applied.base_spec() == self.base_spec(),
            applied.pipeline_spec() == self.pipeline_spec(),
            applied.m1_spec() == self.m1_spec(),
            applied.m2_spec() == self.m2_spec(),
            applied.m3_spec() == self.m3_spec(),
            applied.m4_spec() == self.m4_spec(),
            applied.m5_spec() == self.m5_spec(),
            applied.m7_spec() == self.m7_spec(),
            applied.m6_spec() == self.m6_spec().push(value),
            removed.base_spec() == applied.base_spec(),
            removed.pipeline_spec() == applied.pipeline_spec(),
            removed.m1_spec() == applied.m1_spec(),
            removed.m2_spec() == applied.m2_spec(),
            removed.m3_spec() == applied.m3_spec(),
            removed.m4_spec() == applied.m4_spec(),
            removed.m5_spec() == applied.m5_spec(),
            removed.m7_spec() == applied.m7_spec(),
            removed.m6_spec().to_multiset() == applied.m6_spec().to_multiset().remove(
                value,
            ),
        ensures
            removed.value_spec() == self.value_spec(),
            forall|x: M6| removed.m6_spec().contains(x) == self.m6_spec().contains(x),
    {
        broadcast use vstd::seq_lib::group_to_multiset_ensures;

        assert(applied.m6_spec().to_multiset() == self.m6_spec().to_multiset().insert(value));
        assert(removed.m6_spec().to_multiset() =~= self.m6_spec().to_multiset());
        self.pipeline_spec().lemma_eval_permutation(
            self.base_spec(),
            removed.m1_spec(),
            removed.m2_spec(),
            removed.m3_spec(),
            removed.m4_spec(),
            removed.m5_spec(),
            removed.m6_spec(),
            removed.m7_spec(),
            self.m1_spec(),
            self.m2_spec(),
            self.m3_spec(),
            self.m4_spec(),
            self.m5_spec(),
            self.m6_spec(),
            self.m7_spec(),
        );
        assert forall|x: M6| removed.m6_spec().contains(x) == self.m6_spec().contains(
            x,
        ) by {
            assert(removed.m6_spec().contains(x) <==> removed.m6_spec().to_multiset().count(x)
                > 0);
            assert(self.m6_spec().contains(x) <==> self.m6_spec().to_multiset().count(x) > 0);
        }
    }

    /// Applying a modifier to slot 7 and then removing it returns the
    /// aggregator to its pre-apply state as far as `get` and `has` can
    /// observe.
    pub proof fn lemma_apply_remove_roundtrip_m7(
        self,
        applied: Self,
        removed: Self,
        value: M7,
    )
        requires
            applied.base_spec() == self.base_spec(),
            applied.pipeline_spec() == self.pipeline_spec(),
            applied.m1_spec() == self.m1_spec(),
            applied.m2_spec() == self.m2_spec(),
            applied.m3_spec() == self.m3_spec(),
            applied.m4_spec() == self.m4_spec(),
            applied.m5_spec() == self.m5_spec(),
            applied.m6_spec() == self.m6_spec(),
            applied.m7_spec() == self.m7_spec().push(value),
            removed.base_spec() == applied.base_spec(),
            removed.pipeline_spec() == applied.pipeline_spec(),
            removed.m1_spec() == applied.m1_spec(),
            removed.m2_spec() == applied.m2_spec(),
            removed.m3_spec() == applied.m3_spec(),
            removed.m4_spec() == applied.m4_spec(),
            removed.m5_spec() == applied.m5_spec(),
            removed.m6_spec() == applied.m6_spec(),
            removed.m7_spec().to_multiset() == applied.m7_spec().to_multiset().remove(
                value,
            ),
        ensures
            removed.value_spec() == self.value_spec(),
            forall|x: M7| removed.m7_spec().contains(x) == self.m7_spec().contains(x),
    {
        broadcast use vstd::seq_lib::group_to_multiset_ensures;

        assert(applied.m7_spec().to_multiset() == self.m7_spec().to_multiset().insert(value));
        assert(removed.m7_spec().to_multiset() =~= self.m7_spec().to_multiset());
        self.pipeline_spec().lemma_eval_permutation(
            self.base_spec(),
            removed.m1_spec(),
            removed.m2_spec(),
            removed.m3_spec(),
            removed.m4_spec(),
            removed.m5_spec(),
            removed.m6_spec(),
            removed.m7_spec(),
            self.m1_spec(),
            self.m2_spec(),
            self.m3_spec(),
            self.m4_spec(),
            self.m5_spec(),
            self.m6_spec(),
            self.m7_spec(),
        );
        assert forall|x: M7| removed.m7_spec().contains(x) == self.m7_spec().contains(
            x,
        ) by {
            assert(removed.m7_spec().contains(x) <==> removed.m7_spec().to_multiset().count(x)
                > 0);
            assert(self.m7_spec().contains(x) <==> self.m7_spec().to_multiset().count(x) > 0);
        }
    }

}

/// An aggregator over 8 modifier categories: one base value, one collection per category,
/// and the pipeline that folds them together. The base and the pipeline
/// are fixed at construction; the only mutable state is category
/// membership.
pub struct Stat8<Marker, M1, M2, M3, M4, M5, M6, M7, M8, F> where
    Marker: StatMarker,
    M1: Modifier,
    M2: Modifier,
    M3: Modifier,
    M4: Modifier,
    M5: Modifier,
    M6: Modifier,
    M7: Modifier,
    M8: Modifier,
    F: Pipeline8<Marker, M1, M2, M3, M4, M5, M6, M7, M8>,
 {
    base: Marker::Raw,
    m1: Vec<M1>,
    m2: Vec<M2>,
    m3: Vec<M3>,
    m4: Vec<M4>,
    m5: Vec<M5>,
    m6: Vec<M6>,
    m7: Vec<M7>,
    m8: Vec<M8>,
    f: F,
}

impl<Marker, M1, M2, M3, M4, M5, M6, M7, M8, F> Stat8<Marker, M1, M2, M3, M4, M5, M6, M7, M8, F> where
    Marker: StatMarker,
    M1: Modifier,
    M2: Modifier,
    M3: Modifier,
    M4: Modifier,
    M5: Modifier,
    M6: Modifier,
    M7: Modifier,
    M8: Modifier,
    F: Pipeline8<Marker, M1, M2, M3, M4, M5, M6, M7, M8>,
 {
    /// The immutable base value.
    pub closed spec fn base_spec(self) -> Marker::Raw {
        self.base
    }

    /// Slot 1's modifiers, in storage order.
    pub closed spec fn m1_spec(self) -> Seq<M1> {
        self.m1@
    }

    /// Slot 2's modifiers, in storage order.
    pub closed spec fn m2_spec(self) -> Seq<M2> {
        self.m2@
    }

    /// Slot 3's modifiers, in storage order.
    pub closed spec fn m3_spec(self) -> Seq<M3> {
        self.m3@
    }

    /// Slot 4's modifiers, in storage order.
    pub closed spec fn m4_spec(self) -> Seq<M4> {
        self.m4@
    }

    /// Slot 5's modifiers, in storage order.
    pub closed spec fn m5_spec(self) -> Seq<M5> {
        self.m5@
    }

    /// Slot 6's modifiers, in storage order.
    pub closed spec fn m6_spec(self) -> Seq<M6> {
        self.m6@
    }

    /// Slot 7's modifiers, in storage order.
    pub closed spec fn m7_spec(self) -> Seq<M7> {
        self.m7@
    }

    /// Slot 8's modifiers, in storage order.
    pub closed spec fn m8_spec(self) -> Seq<M8> {
        self.m8@
    }

    /// The pipeline supplied at construction.
    pub closed spec fn pipeline_spec(self) -> F {
        self.f
    }

    /// The value `get` recomputes: the pipeline applied to the base and
    /// the current collections.
    pub open spec fn value_spec(self) -> Marker::Raw {
        self.pipeline_spec().eval_spec(self.base_spec(), self.m1_spec(), self.m2_spec(), self.m3_spec(), self.m4_spec(), self.m5_spec(), self.m6_spec(), self.m7_spec(), self.m8_spec())
    }

    /// Creates an aggregator with no modifiers.
    pub fn new(base: Marker::Raw, f: F) -> (r: Self)
        ensures
            r.base_spec() == base,
            r.pipeline_spec() == f,
            r.m1_spec() == Seq::<M1>::empty(),
            r.m2_spec() == Seq::<M2>::empty(),
            r.m3_spec() == Seq::<M3>::empty(),
            r.m4_spec() == Seq::<M4>::empty(),
            r.m5_spec() == Seq::<M5>::empty(),
            r.m6_spec() == Seq::<M6>::empty(),
            r.m7_spec() == Seq::<M7>::empty(),
            r.m8_spec() == Seq::<M8>::empty(),
    {
        Stat8 { base, m1: Vec::new(), m2: Vec::new(), m3: Vec::new(), m4: Vec::new(), m5: Vec::new(), m6: Vec::new(), m7: Vec::new(), m8: Vec::new(), f }
    }

    /// Inserts a modifier into slot 1. Duplicates may coexist and all
    /// contribute.
    pub fn apply_m1(&mut self, value: M1)
        ensures
            final(self).base_spec() == old(self).base_spec(),
            final(self).pipeline_spec() == old(self).pipeline_spec(),
            final(self).m2_spec() == old(self).m2_spec(),
            final(self).m3_spec() == old(self).m3_spec(),
            final(self).m4_spec() == old(self).m4_spec(),
            final(self).m5_spec() == old(self).m5_spec(),
            final(self).m6_spec() == old(self).m6_spec(),
            final(self).m7_spec() == old(self).m7_spec(),
            final(self).m8_spec() == old(self).m8_spec(),
            final(self).m1_spec() == old(self).m1_spec().push(value),
    {
        self.m1.push(value);
    }

    /// Inserts a modifier into slot 2. Duplicates may coexist and all
    /// contribute.
    pub fn apply_m2(&mut self, value: M2)
        ensures
            final(self).base_spec() == old(self).base_spec(),
            final(self).pipeline_spec() == old(self).pipeline_spec(),
            final(self).m1_spec() == old(self).m1_spec(),
            final(self).m3_spec() == old(self).m3_spec(),
            final(self).m4_spec() == old(self).m4_spec(),
            final(self).m5_spec() == old(self).m5_spec(),
            final(self).m6_spec() == old(self).m6_spec(),
            final(self).m7_spec() == old(self).m7_spec(),
            final(self).m8_spec() == old(self).m8_spec(),
            final(self).m2_spec() == old(self).m2_spec().push(value),
    {
        self.m2.push(value);
    }

    /// Inserts a modifier into slot 3. Duplicates may coexist and all
    /// contribute.
    pub fn apply_m3(&mut self, value: M3)
        ensures
            final(self).base_spec() == old(self).base_spec(),
            final(self).pipeline_spec() == old(self).pipeline_spec(),
            final(self).m1_spec() == old(self).m1_spec(),
            final(self).m2_spec() == old(self).m2_spec(),
            final(self).m4_spec() == old(self).m4_spec(),
            final(self).m5_spec() == old(self).m5_spec(),
            final(self).m6_spec() == old(self).m6_spec(),
            final(self).m7_spec() == old(self).m7_spec(),
            final(self).m8_spec() == old(self).m8_spec(),
            final(self).m3_spec() == old(self).m3_spec().push(value),
    {
        self.m3.push(value);
    }

    /// Inserts a modifier into slot 4. Duplicates may coexist and all
    /// contribute.
    pub fn apply_m4(&mut self, value: M4)
        ensures
            final(self).base_spec() == old(self).base_spec(),
            final(self).pipeline_spec() == old(self).pipeline_spec(),
            final(self).m1_spec() == old(self).m1_spec(),
            final(self).m2_spec() == old(self).m2_spec(),
            final(self).m3_spec() == old(self).m3_spec(),
            final(self).m5_spec() == old(self).m5_spec(),
            final(self).m6_spec() == old(self).m6_spec(),
            final(self).m7_spec() == old(self).m7_spec(),
            final(self).m8_spec() == old(self).m8_spec(),
            final(self).m4_spec() == old(self).m4_spec().push(value),
    {
        self.m4.push(value);
    }

    /// Inserts a modifier into slot 5. Duplicates may coexist and all
    /// contribute.
    pub fn apply_m5(&mut self, value: M5)
        ensures
            final(self).base_spec() == old(self).base_spec(),
            final(self).pipeline_spec() == old(self).pipeline_spec(),
            final(self).m1_spec() == old(self).m1_spec(),
            final(self).m2_spec() == old(self).m2_spec(),
            final(self).m3_spec() == old(self).m3_spec(),
            final(self).m4_spec() == old(self).m4_spec(),
            final(self).m6_spec() == old(self).m6_spec(),
            final(self).m7_spec() == old(self).m7_spec(),
            final(self).m8_spec() == old(self).m8_spec(),
            final(self).m5_spec() == old(self).m5_spec().push(value),
    {
        self.m5.push(value);
    }

    /// Inserts a modifier into slot 6. Duplicates may coexist and all
    /// contribute.
    pub fn apply_m6(&mut self, value: M6)
        ensures
            final(self).base_spec() == old(self).base_spec(),
            final(self).pipeline_spec() == old(self).pipeline_spec(),
            final(self).m1_spec() == old(self).m1_spec(),
            final(self).m2_spec() == old(self).m2_spec(),
            final(self).m3_spec() == old(self).m3_spec(),
            final(self).m4_spec() == old(self).m4_spec(),
            final(self).m5_spec() == old(self).m5_spec(),
            final(self).m7_spec() == old(self).m7_spec(),
            final(self).m8_spec() == old(self).m8_spec(),
            final(self).m6_spec() == old(self).m6_spec().push(value),
    {
        self.m6.push(value);
    }

    /// Inserts a modifier into slot 7. Duplicates may coexist and all
    /// contribute.
    pub fn apply_m7(&mut self, value: M7)
        ensures
            final(self).base_spec() == old(self).base_spec(),
            final(self).pipeline_spec() == old(self).pipeline_spec(),
            final(self).m1_spec() == old(self).m1_spec(),
            final(self).m2_spec() == old(self).m2_spec(),
            final(self).m3_spec() == old(self).m3_spec(),
            final(self).m4_spec() == old(self).m4_spec(),
            final(self).m5_spec() == old(self).m5_spec(),
            final(self).m6_spec() == old(self).m6_spec(),
            final(self).m8_spec() == old(self).m8_spec(),
            final(self).m7_spec() == old(self).m7_spec().push(value),
    {
        self.m7.push(value);
    }

    /// Inserts a modifier into slot 8. Duplicates may coexist and all
    /// contribute.
    pub fn apply_m8(&mut self, value: M8)
        ensures
            final(self).base_spec() == old(self).base_spec(),
            final(self).pipeline_spec() == old(self).pipeline_spec(),
            final(self).m1_spec() == old(self).m1_spec(),
            final(self).m2_spec() == old(self).m2_spec(),
            final(self).m3_spec() == old(self).m3_spec(),
            final(self).m4_spec() == old(self).m4_spec(),
            final(self).m5_spec() == old(self).m5_spec(),
            final(self).m6_spec() == old(self).m6_spec(),
            final(self).m7_spec() == old(self).m7_spec(),
            final(self).m8_spec() == old(self).m8_spec().push(value),
    {
        self.m8.push(value);
    }

    /// Removes one occurrence equal to `value` from slot 1 by
    /// swap-removal; a no-op, not an error, if no equal modifier is
    /// stored.
    pub fn remove_m1(&mut self, value: M1)
        ensures
            final(self).base_spec() == old(self).base_spec(),
            final(self).pipeline_spec() == old(self).pipeline_spec(),
            final(self).m2_spec() == old(self).m2_spec(),
            final(self).m3_spec() == old(self).m3_spec(),
            final(self).m4_spec() == old(self).m4_spec(),
            final(self).m5_spec() == old(self).m5_spec(),
            final(self).m6_spec() == old(self).m6_spec(),
            final(self).m7_spec() == old(self).m7_spec(),
            final(self).m8_spec() == old(self).m8_spec(),
            old(self).m1_spec().contains(value) ==> exists|i: int|
                0 <= i < old(self).m1_spec().len() && old(self).m1_spec()[i] == value
                    && final(self).m1_spec() == old(self).m1_spec().update(
                    i,
                    old(self).m1_spec().last(),
                ).drop_last(),
            old(self).m1_spec().contains(value) ==> final(self).m1_spec().to_multiset() == old(
                self,
            ).m1_spec().to_multiset().remove(value),
            !old(self).m1_spec().contains(value) ==> final(self).m1_spec() == old(
                self,
            ).m1_spec(),
    {
        slot_remove_one(&mut self.m1, value);
    }

    /// Removes one occurrence equal to `value` from slot 2 by
    /// swap-removal; a no-op, not an error, if no equal modifier is
    /// stored.
    pub fn remove_m2(&mut self, value: M2)
        ensures
            final(self).base_spec() == old(self).base_spec(),
            final(self).pipeline_spec() == old(self).pipeline_spec(),
            final(self).m1_spec() == old(self).m1_spec(),
            final(self).m3_spec() == old(self).m3_spec(),
            final(self).m4_spec() == old(self).m4_spec(),
            final(self).m5_spec() == old(self).m5_spec(),
            final(self).m6_spec() == old(self).m6_spec(),
            final(self).m7_spec() == old(self).m7_spec(),
            final(self).m8_spec() == old(self).m8_spec(),
            old(self).m2_spec().contains(value) ==> exists|i: int|
                0 <= i < old(self).m2_spec().len() && old(self).m2_spec()[i] == value
                    && final(self).m2_spec() == old(self).m2_spec().update(
                    i,
                    old(self).m2_spec().last(),
                ).drop_last(),
            old(self).m2_spec().contains(value) ==> final(self).m2_spec().to_multiset() == old(
                self,
            ).m2_spec().to_multiset().remove(value),
            !old(self).m2_spec().contains(value) ==> final(self).m2_spec() == old(
                self,
            ).m2_spec(),
    {
        slot_remove_one(&mut self.m2, value);
    }

    /// Removes one occurrence equal to `value` from slot 3 by
    /// swap-removal; a no-op, not an error, if no equal modifier is
    /// stored.
    pub fn remove_m3(&mut self, value: M3)
        ensures
            final(self).base_spec() == old(self).base_spec(),
            final(self).pipeline_spec() == old(self).pipeline_spec(),
            final(self).m1_spec() == old(self).m1_spec(),
            final(self).m2_spec() == old(self).m2_spec(),
            final(self).m4_spec() == old(self).m4_spec(),
            final(self).m5_spec() == old(self).m5_spec(),
            final(self).m6_spec() == old(self).m6_spec(),
            final(self).m7_spec() == old(self).m7_spec(),
            final(self).m8_spec() == old(self).m8_spec(),
            old(self).m3_spec().contains(value) ==> exists|i: int|
                0 <= i < old(self).m3_spec().len() && old(self).m3_spec()[i] == value
                    && final(self).m3_spec() == old(self).m3_spec().update(
                    i,
                    old(self).m3_spec().last(),
                ).drop_last(),
            old(self).m3_spec().contains(value) ==> final(self).m3_spec().to_multiset() == old(
                self,
            ).m3_spec().to_multiset().remove(value),
            !old(self).m3_spec().contains(value) ==> final(self).m3_spec() == old(
                self,
            ).m3_spec(),
    {
        slot_remove_one(&mut self.m3, value);
    }

    /// Removes one occurrence equal to `value` from slot 4 by
    /// swap-removal; a no-op, not an error, if no equal modifier is
    /// stored.
    pub fn remove_m4(&mut self, value: M4)
        ensures
            final(self).base_spec() == old(self).base_spec(),
            final(self).pipeline_spec() == old(self).pipeline_spec(),
            final(self).m1_spec() == old(self).m1_spec(),
            final(self).m2_spec() == old(self).m2_spec(),
            final(self).m3_spec() == old(self).m3_spec(),
            final(self).m5_spec() == old(self).m5_spec(),
            final(self).m6_spec() == old(self).m6_spec(),
            final(self).m7_spec() == old(self).m7_spec(),
            final(self).m8_spec() == old(self).m8_spec(),
            old(self).m4_spec().contains(value) ==> exists|i: int|
                0 <= i < old(self).m4_spec().len() && old(self).m4_spec()[i] == value
                    && final(self).m4_spec() == old(self).m4_spec().update(
                    i,
                    old(self).m4_spec().last(),
                ).drop_last(),
            old(self).m4_spec().contains(value) ==> final(self).m4_spec().to_multiset() == old(
                self,
            ).m4_spec().to_multiset().remove(value),
            !old(self).m4_spec().contains(value) ==> final(self).m4_spec() == old(
                self,
            ).m4_spec(),
    {
        slot_remove_one(&mut self.m4, value);
    }

    /// Removes one occurrence equal to `value` from slot 5 by
    /// swap-removal; a no-op, not an error, if no equal modifier is
    /// stored.
    pub fn remove_m5(&mut self, value: M5)
        ensures
            final(self).base_spec() == old(self).base_spec(),
            final(self).pipeline_spec() == old(self).pipeline_spec(),
            final(self).m1_spec() == old(self).m1_spec(),
            final(self).m2_spec() == old(self).m2_spec(),
            final(self).m3_spec() == old(self).m3_spec(),
            final(self).m4_spec() == old(self).m4_spec(),
            final(self).m6_spec() == old(self).m6_spec(),
            final(self).m7_spec() == old(self).m7_spec(),
            final(self).m8_spec() == old(self).m8_spec(),
            old(self).m5_spec().contains(value) ==> exists|i: int|
                0 <= i < old(self).m5_spec().len() && old(self).m5_spec()[i] == value
                    && final(self).m5_spec() == old(self).m5_spec().update(
                    i,
                    old(self).m5_spec().last(),
                ).drop_last(),
            old(self).m5_spec().contains(value) ==> final(self).m5_spec().to_multiset() == old(
                self,
            ).m5_spec().to_multiset().remove(value),
            !old(self).m5_spec().contains(value) ==> final(self).m5_spec() == old(
                self,
            ).m5_spec(),
    {
        slot_remove_one(&mut self.m5, value);
    }

    /// Removes one occurrence equal to `value` from slot 6 by
    /// swap-removal; a no-op, not an error, if no equal modifier is
    /// stored.
    pub fn remove_m6(&mut self, value: M6)
        ensures
            final(self).base_spec() == old(self).base_spec(),
            final(self).pipeline_spec() == old(self).pipeline_spec(),
            final(self).m1_spec() == old(self).m1_spec(),
            final(self).m2_spec() == old(self).m2_spec(),
            final(self).m3_spec() == old(self).m3_spec(),
            final(self).m4_spec() == old(self).m4_spec(),
            final(self).m5_spec() == old(self).m5_spec(),
            final(self).m7_spec() == old(self).m7_spec(),
            final(self).m8_spec() == old(self).m8_spec(),
            old(self).m6_spec().contains(value) ==> exists|i: int|
                0 <= i < old(self).m6_spec().len() && old(self).m6_spec()[i] == value
                    && final(self).m6_spec() == old(self).m6_spec().update(
                    i,
                    old(self).m6_spec().last(),
                ).drop_last(),
            old(self).m6_spec().contains(value) ==> final(self).m6_spec().to_multiset() == old(
                self,
            ).m6_spec().to_multiset().remove(value),
            !old(self).m6_spec().contains(value) ==> final(self).m6_spec() == old(
                self,
            ).m6_spec(),
    {
        slot_remove_one(&mut self.m6, value);
    }

    /// Removes one occurrence equal to `value` from slot 7 by
    /// swap-removal; a no-op, not an error, if no equal modifier is
    /// stored.
    pub fn remove_m7(&mut self, value: M7)
        ensures
            final(self).base_spec() == old(self).base_spec(),
            final(self).pipeline_spec() == old(self).pipeline_spec(),
            final(self).m1_spec() == old(self).m1_spec(),
            final(self).m2_spec() == old(self).m2_spec(),
            final(self).m3_spec() == old(self).m3_spec(),
            final(self).m4_spec() == old(self).m4_spec(),
            final(self).m5_spec() == old(self).m5_spec(),
            final(self).m6_spec() == old(self).m6_spec(),
            final(self).m8_spec() == old(self).m8_spec(),
            old(self).m7_spec().contains(value) ==> exists|i: int|
                0 <= i < old(self).m7_spec().len() && old(self).m7_spec()[i] == value
                    && final(self).m7_spec() == old(self).m7_spec().update(
                    i,
                    old(self).m7_spec().last(),
                ).drop_last(),
            old(self).m7_spec().contains(value) ==> final(self).m7_spec().to_multiset() == old(
                self,
            ).m7_spec().to_multiset().remove(value),
            !old(self).m7_spec().contains(value) ==> final(self).m7_spec() == old(
                self,
            ).m7_spec(),
    {
        slot_remove_one(&mut self.m7, value);
    }

    /// Removes one occurrence equal to `value` from slot 8 by
    /// swap-removal; a no-op, not an error, if no equal modifier is
    /// stored.
    pub fn remove_m8(&mut self, value: M8)
        ensures
            final(self).base_spec() == old(self).base_spec(),
            final(self).pipeline_spec() == old(self).pipeline_spec(),
            final(self).m1_spec() == old(self).m1_spec(),
            final(self).m2_spec() == old(self).m2_spec(),
            final(self).m3_spec() == old(self).m3_spec(),
            final(self).m4_spec() == old(self).m4_spec(),
            final(self).m5_spec() == old(self).m5_spec(),
            final(self).m6_spec() == old(self).m6_spec(),
            final(self).m7_spec() == old(self).m7_spec(),
            old(self).m8_spec().contains(value) ==> exists|i: int|
                0 <= i < old(self).m8_spec().len() && old(self).m8_spec()[i] == value
                    && final(self).m8_spec() == old(self).m8_spec().update(
                    i,
                    old(self).m8_spec().last(),
                ).drop_last(),
            old(self).m8_spec().contains(value) ==> final(self).m8_spec().to_multiset() == old(
                self,
            ).m8_spec().to_multiset().remove(value),
            !old(self).m8_spec().contains(value) ==> final(self).m8_spec() == old(
                self,
            ).m8_spec(),
    {
        slot_remove_one(&mut self.m8, value);
    }

    /// True if and only if a modifier equal to `value` is stored in slot
    /// 1.
    pub fn has_m1(&self, value: M1) -> (r: bool)
        ensures
            r == self.m1_spec().contains(value),
    {
        slot_contains(&self.m1, value)
    }

    /// True if and only if a modifier equal to `value` is stored in slot
    /// 2.
    pub fn has_m2(&self, value: M2) -> (r: bool)
        ensures
            r == self.m2_spec().contains(value),
    {
        slot_contains(&self.m2, value)
    }

    /// True if and only if a modifier equal to `value` is stored in slot
    /// 3.
    pub fn has_m3(&self, value: M3) -> (r: bool)
        ensures
            r == self.m3_spec().contains(value),
    {
        slot_contains(&self.m3, value)
    }

    /// True if and only if a modifier equal to `value` is stored in slot
    /// 4.
    pub fn has_m4(&self, value: M4) -> (r: bool)
        ensures
            r == self.m4_spec().contains(value),
    {
        slot_contains(&self.m4, value)
    }

    /// True if and only if a modifier equal to `value` is stored in slot
    /// 5.
    pub fn has_m5(&self, value: M5) -> (r: bool)
        ensures
            r == self.m5_spec().contains(value),
    {
        slot_contains(&self.m5, value)
    }

    /// True if and only if a modifier equal to `value` is stored in slot
    /// 6.
    pub fn has_m6(&self, value: M6) -> (r: bool)
        ensures
            r == self.m6_spec().contains(value),
    {
        slot_contains(&self.m6, value)
    }

    /// True if and only if a modifier equal to `value` is stored in slot
    /// 7.
    pub fn has_m7(&self, value: M7) -> (r: bool)
        ensures
            r == self.m7_spec().contains(value),
    {
        slot_contains(&self.m7, value)
    }

    /// True if and only if a modifier equal to `value` is stored in slot
    /// 8.
    pub fn has_m8(&self, value: M8) -> (r: bool)
        ensures
            r == self.m8_spec().contains(value),
    {
        slot_contains(&self.m8, value)
    }

    /// The immutable base value.
    pub fn base(&self) -> (r: Marker::Raw)
        ensures
            r == self.base_spec(),
    {
        self.base
    }

    /// Recomputes the stat from the base and the current collections.
    /// Nothing is cached: every call folds over the stored modifiers.
    pub fn get(&self) -> (r: Marker::Raw)
        ensures
            r == self.value_spec(),
    {
        self.f.eval(self.base, &self.m1, &self.m2, &self.m3, &self.m4, &self.m5, &self.m6, &self.m7, &self.m8)
    }

    /// Read-only view of slot 1 for enumeration.
    pub fn m1(&self) -> (r: &Vec<M1>)
        ensures
            r@ == self.m1_spec(),
    {
        &self.m1
    }

    /// Read-only view of slot 2 for enumeration.
    pub fn m2(&self) -> (r: &Vec<M2>)
        ensures
            r@ == self.m2_spec(),
    {
        &self.m2
    }

    /// Read-only view of slot 3 for enumeration.
    pub fn m3(&self) -> (r: &Vec<M3>)
        ensures
            r@ == self.m3_spec(),
    {
        &self.m3
    }

    /// Read-only view of slot 4 for enumeration.
    pub fn m4(&self) -> (r: &Vec<M4>)
        ensures
            r@ == self.m4_spec(),
    {
        &self.m4
    }

    /// Read-only view of slot 5 for enumeration.
    pub fn m5(&self) -> (r: &Vec<M5>)
        ensures
            r@ == self.m5_spec(),
    {
        &self.m5
    }

    /// Read-only view of slot 6 for enumeration.
    pub fn m6(&self) -> (r: &Vec<M6>)
        ensures
            r@ == self.m6_spec(),
    {
        &self.m6
    }

    /// Read-only view of slot 7 for enumeration.
    pub fn m7(&self) -> (r: &Vec<M7>)
        ensures
            r@ == self.m7_spec(),
    {
        &self.m7
    }

    /// Read-only view of slot 8 for enumeration.
    pub fn m8(&self) -> (r: &Vec<M8>)
        ensures
            r@ == self.m8_spec(),
    {
        &self.m8
    }

    /// Applying modifiers in either order leaves the computed value the
    /// same: two aggregators with the same base and pipeline whose slots
    /// agree as multisets agree on `get`.
    pub proof fn lemma_order_independent(self, other: Self)
        requires
            self.base_spec() == other.base_spec(),
            self.pipeline_spec() == other.pipeline_spec(),
            self.m1_spec().to_multiset() == other.m1_spec().to_multiset(),
            self.m2_spec().to_multiset() == other.m2_spec().to_multiset(),
            self.m3_spec().to_multiset() == other.m3_spec().to_multiset(),
            self.m4_spec().to_multiset() == other.m4_spec().to_multiset(),
            self.m5_spec().to_multiset() == other.m5_spec().to_multiset(),
            self.m6_spec().to_multiset() == other.m6_spec().to_multiset(),
            self.m7_spec().to_multiset() == other.m7_spec().to_multiset(),
            self.m8_spec().to_multiset() == other.m8_spec().to_multiset(),
        ensures
            self.value_spec() == other.value_spec(),
    {
        self.pipeline_spec().lemma_eval_permutation(
            self.base_spec(),
            self.m1_spec(),
            self.m2_spec(),
            self.m3_spec(),
            self.m4_spec(),
            self.m5_spec(),
            self.m6_spec(),
            self.m7_spec(),
            self.m8_spec(),
            other.m1_spec(),
            other.m2_spec(),
            other.m3_spec(),
            other.m4_spec(),
            other.m5_spec(),
            other.m6_spec(),
            other.m7_spec(),
            other.m8_spec(),
        );
    }

    /// The direct form of order independence for one slot: applying `a`
    /// then `b` to slot 1 yields the same computed value as applying `b`
    /// then `a`.
    pub proof fn lemma_apply_two_commute_m1(self, ab: Self, ba: Self, a: M1, b: M1)
        requires
            ab.base_spec() == self.base_spec(),
            ab.pipeline_spec() == self.pipeline_spec(),
            ba.base_spec() == self.base_spec(),
            ba.pipeline_spec() == self.pipeline_spec(),
            ab.m2_spec() == self.m2_spec(),
            ab.m3_spec() == self.m3_spec(),
            ab.m4_spec() == self.m4_spec(),
            ab.m5_spec() == self.m5_spec(),
            ab.m6_spec() == self.m6_spec(),
            ab.m7_spec() == self.m7_spec(),
            ab.m8_spec() == self.m8_spec(),
            ba.m2_spec() == self.m2_spec(),
            ba.m3_spec() == self.m3_spec(),
            ba.m4_spec() == self.m4_spec(),
            ba.m5_spec() == self.m5_spec(),
            ba.m6_spec() == self.m6_spec(),
            ba.m7_spec() == self.m7_spec(),
            ba.m8_spec() == self.m8_spec(),
            ab.m1_spec() == self.m1_spec().push(a).push(b),
            ba.m1_spec() == self.m1_spec().push(b).push(a),
        ensures
            ab.value_spec() == ba.value_spec(),
    {
        broadcast use vstd::seq_lib::group_to_multiset_ensures;

        assert(ab.m1_spec().to_multiset() =~= ba.m1_spec().to_multiset());
        ab.lemma_order_independent(ba);
    }

    /// Applying a modifier to slot 1 and then removing it returns the
    /// aggregator to its pre-apply state as far as `get` and `has` can
    /// observe.
    pub proof fn lemma_apply_remove_roundtrip_m1(
        self,
        applied: Self,
        removed: Self,
        value: M1,
    )
        requires
            applied.base_spec() == self.base_spec(),
            applied.pipeline_spec() == self.pipeline_spec(),
            applied.m2_spec() == self.m2_spec(),
            applied.m3_spec() == self.m3_spec(),
            applied.m4_spec() == self.m4_spec(),
            applied.m5_spec() == self.m5_spec(),
            applied.m6_spec() == self.m6_spec(),
            applied.m7_spec() == self.m7_spec(),
            applied.m8_spec() == self.m8_spec(),
            applied.m1_spec() == self.m1_spec().push(value),
            removed.base_spec() == applied.base_spec(),
            removed.pipeline_spec() == applied.pipeline_spec(),
            removed.m2_spec() == applied.m2_spec(),
            removed.m3_spec() == applied.m3_spec(),
            removed.m4_spec() == applied.m4_spec(),
            removed.m5_spec() == applied.m5_spec(),
            removed.m6_spec() == applied.m6_spec(),
            removed.m7_spec() == applied.m7_spec(),
            removed.m8_spec() == applied.m8_spec(),
            removed.m1_spec().to_multiset() == applied.m1_spec().to_multiset().remove(
                value,
            ),
        ensures
            removed.value_spec() == self.value_spec(),
            forall|x: M1| removed.m1_spec().contains(x) == self.m1_spec().contains(x),
    {
        broadcast use vstd::seq_lib::group_to_multiset_ensures;

        assert(applied.m1_spec().to_multiset() == self.m1_spec().to_multiset().insert(value));
        assert(removed.m1_spec().to_multiset() =~= self.m1_spec().to_multiset());
        self.pipeline_spec().lemma_eval_permutation(
            self.base_spec(),
            removed.m1_spec(),
            removed.m2_spec(),
            removed.m3_spec(),
            removed.m4_spec(),
            removed.m5_spec(),
            removed.m6_spec(),
            removed.m7_spec(),
            removed.m8_spec(),
            self.m1_spec(),
            self.m2_spec(),
            self.m3_spec(),
            self.m4_spec(),
            self.m5_spec(),
            self.m6_spec(),
            self.m7_spec(),
            self.m8_spec(),
        );
        assert forall|x: M1| removed.m1_spec().contains(x) == self.m1_spec().contains(
            x,
        ) by {
            assert(removed.m1_spec().contains(x) <==> removed.m1_spec().to_multiset().count(x)
                > 0);
            assert(self.m1_spec().contains(x) <==> self.m1_spec().to_multiset().count(x) > 0);
        }
    }

    /// Applying a modifier to slot 2 and then removing it returns the
    /// aggregator to its pre-apply state as far as `get` and `has` can
    /// observe.
    pub proof fn lemma_apply_remove_roundtrip_m2(
        self,
        applied: Self,
        removed: Self,
        value: M2,
    )
        requires
            applied.base_spec() == self.base_spec(),
            applied.pipeline_spec() == self.pipeline_spec(),
            applied.m1_spec() == self.m1_spec(),
            applied.m3_spec() == self.m3_spec(),
            applied.m4_spec() == self.m4_spec(),
            applied.m5_spec() == self.m5_spec(),
            applied.m6_spec() == self.m6_spec(),
            applied.m7_spec() == self.m7_spec(),
            applied.m8_spec() == self.m8_spec(),
            applied.m2_spec() == self.m2_spec().push(value),
            removed.base_spec() == applied.base_spec(),
            removed.pipeline_spec() == applied.pipeline_spec(),
            removed.m1_spec() == applied.m1_spec(),
            removed.m3_spec() == applied.m3_spec(),
            removed.m4_spec() == applied.m4_spec(),
            removed.m5_spec() == applied.m5_spec(),
            removed.m6_spec() == applied.m6_spec(),
            removed.m7_spec() == applied.m7_spec(),
            removed.m8_spec() == applied.m8_spec(),
            removed.m2_spec().to_multiset() == applied.m2_spec().to_multiset().remove(
                value,
            ),
        ensures
            removed.value_spec() == self.value_spec(),
            forall|x: M2| removed.m2_spec().contains(x) == self.m2_spec().contains(x),
    {
        broadcast use vstd::seq_lib::group_to_multiset_ensures;

        assert(applied.m2_spec().to_multiset() == self.m2_spec().to_multiset().insert(value));
        assert(removed.m2_spec().to_multiset() =~= self.m2_spec().to_multiset());
        self.pipeline_spec().lemma_eval_permutation(
            self.base_spec(),
            removed.m1_spec(),
            removed.m2_spec(),
            removed.m3_spec(),
            removed.m4_spec(),
            removed.m5_spec(),
            removed.m6_spec(),
            removed.m7_spec(),
            removed.m8_spec(),
            self.m1_spec(),
            self.m2_spec(),
            self.m3_spec(),
            self.m4_spec(),
            self.m5_spec(),
            self.m6_spec(),
            self.m7_spec(),
            self.m8_spec(),
        );
        assert forall|x: M2| removed.m2_spec().contains(x) == self.m2_spec().contains(
            x,
        ) by {
            assert(removed.m2_spec().contains(x) <==> removed.m2_spec().to_multiset().count(x)
                > 0);
            assert(self.m2_spec().contains(x) <==> self.m2_spec().to_multiset().count(x) > 0);
        }
    }

    /// Applying a modifier to slot 3 and then removing it returns the
    /// aggregator to its pre-apply state as far as `get` and `has` can
    /// observe.
    pub proof fn lemma_apply_remove_roundtrip_m3(
        self,
        applied: Self,
        removed: Self,
        value: M3,
    )
        requires
            applied.base_spec() == self.base_spec(),
            applied.pipeline_spec() == self.pipeline_spec(),
            applied.m1_spec() == self.m1_spec(),
            applied.m2_spec() == self.m2_spec(),
            applied.m4_spec() == self.m4_spec(),
            applied.m5_spec() == self.m5_spec(),
            applied.m6_spec() == self.m6_spec(),
            applied.m7_spec() == self.m7_spec(),
            applied.m8_spec() == self.m8_spec(),
            applied.m3_spec() == self.m3_spec().push(value),
            removed.base_spec() == applied.base_spec(),
            removed.pipeline_spec() == applied.pipeline_spec(),
            removed.m1_spec() == applied.m1_spec(),
            removed.m2_spec() == applied.m2_spec(),
            removed.m4_spec() == applied.m4_spec(),
            removed.m5_spec() == applied.m5_spec(),
            removed.m6_spec() == applied.m6_spec(),
            removed.m7_spec() == applied.m7_spec(),
            removed.m8_spec() == applied.m8_spec(),
            removed.m3_spec().to_multiset() == applied.m3_spec().to_multiset().remove(
                value,
            ),
        ensures
            removed.value_spec() == self.value_spec(),
            forall|x: M3| removed.m3_spec().contains(x) == self.m3_spec().contains(x),
    {
        broadcast use vstd::seq_lib::group_to_multiset_ensures;

        assert(applied.m3_spec().to_multiset() == self.m3_spec().to_multiset().insert(value));
        assert(removed.m3_spec().to_multiset() =~= self.m3_spec().to_multiset());
        self.pipeline_spec().lemma_eval_permutation(
            self.base_spec(),
            removed.m1_spec(),
            removed.m2_spec(),
            removed.m3_spec(),
            removed.m4_spec(),
            removed.m5_spec(),
            removed.m6_spec(),
            removed.m7_spec(),
            removed.m8_spec(),
            self.m1_spec(),
            self.m2_spec(),
            self.m3_spec(),
            self.m4_spec(),
            self.m5_spec(),
            self.m6_spec(),
            self.m7_spec(),
            self.m8_spec(),
        );
        assert forall|x: M3| removed.m3_spec().contains(x) == self.m3_spec().contains(
            x,
        ) by {
            assert(removed.m3_spec().contains(x) <==> removed.m3_spec().to_multiset().count(x)
                > 0);
            assert(self.m3_spec().contains(x) <==> self.m3_spec().to_multiset().count(x) > 0);
        }
    }

    /// Applying a modifier to slot 4 and then removing it returns the
    /// aggregator to its pre-apply state as far as `get` and `has` can
    /// observe.
    pub proof fn lemma_apply_remove_roundtrip_m4(
        self,
        applied: Self,
        removed: Self,
        value: M4,
    )
        requires
            applied.base_spec() == self.base_spec(),
            applied.pipeline_spec() == self.pipeline_spec(),
            applied.m1_spec() == self.m1_spec(),
            applied.m2_spec() == self.m2_spec(),
            applied.m3_spec() == self.m3_spec(),
            applied.m5_spec() == self.m5_spec(),
            applied.m6_spec() == self.m6_spec(),
            applied.m7_spec() == self.m7_spec(),
            applied.m8_spec() == self.m8_spec(),
            applied.m4_spec() == self.m4_spec().push(value),
            removed.base_spec() == applied.base_spec(),
            removed.pipeline_spec() == applied.pipeline_spec(),
            removed.m1_spec() == applied.m1_spec(),
            removed.m2_spec() == applied.m2_spec(),
            removed.m3_spec() == applied.m3_spec(),
            removed.m5_spec() == applied.m5_spec(),
            removed.m6_spec() == applied.m6_spec(),
            removed.m7_spec() == applied.m7_spec(),
            removed.m8_spec() == applied.m8_spec(),
            removed.m4_spec().to_multiset() == applied.m4_spec().to_multiset().remove(
                value,
            ),
        ensures
            removed.value_spec() == self.value_spec(),
            forall|x: M4| removed.m4_spec().contains(x) == self.m4_spec().contains(x),
    {
        broadcast use vstd::seq_lib::group_to_multiset_ensures;

        assert(applied.m4_spec().to_multiset() == self.m4_spec().to_multiset().insert(value));
        assert(removed.m4_spec().to_multiset() =~= self.m4_spec().to_multiset());
        self.pipeline_spec().lemma_eval_permutation(
            self.base_spec(),
            removed.m1_spec(),
            removed.m2_spec(),
            removed.m3_spec(),
            removed.m4_spec(),
            removed.m5_spec(),
            removed.m6_spec(),
            removed.m7_spec(),
            removed.m8_spec(),
            self.m1_spec(),
            self.m2_spec(),
            self.m3_spec(),
            self.m4_spec(),
            self.m5_spec(),
            self.m6_spec(),
            self.m7_spec(),
            self.m8_spec(),
        );
        assert forall|x: M4| removed.m4_spec().contains(x) == self.m4_spec().contains(
            x,
        ) by {
            assert(removed.m4_spec().contains(x) <==> removed.m4_spec().to_multiset().count(x)
                > 0);
            assert(self.m4_spec().contains(x) <==> self.m4_spec().to_multiset().count(x) > 0);
        }
    }

    /// Applying a modifier to slot 5 and then removing it returns the
    /// aggregator to its pre-apply state as far as `get` and `has` can
    /// observe.
    pub proof fn lemma_apply_remove_roundtrip_m5(
        self,
        applied: Self,
        removed: Self,
        value: M5,
    )
        requires
            applied.base_spec() == self.base_spec(),
            applied.pipeline_spec() == self.pipeline_spec(),
            applied.m1_spec() == self.m1_spec(),
            applied.m2_spec() == self.m2_spec(),
            applied.m3_spec() == self.m3_spec(),
            applied.m4_spec() == self.m4_spec(),
            applied.m6_spec() == self.m6_spec(),
            applied.m7_spec() == self.m7_spec(),
            applied.m8_spec() == self.m8_spec(),
            applied.m5_spec() == self.m5_spec().push(value),
            removed.base_spec() == applied.base_spec(),
            removed.pipeline_spec() == applied.pipeline_spec(),
            removed.m1_spec() == applied.m1_spec(),
            removed.m2_spec() == applied.m2_spec(),
            removed.m3_spec() == applied.m3_spec(),
            removed.m4_spec() == applied.m4_spec(),
            removed.m6_spec() == applied.m6_spec(),
            removed.m7_spec() == applied.m7_spec(),
            removed.m8_spec() == applied.m8_spec(),
            removed.m5_spec().to_multiset() == applied.m5_spec().to_multiset().remove(
                value,
            ),
        ensures
            removed.value_spec() == self.value_spec(),
            forall|x: M5| removed.m5_spec().contains(x) == self.m5_spec().contains(x),
    {
        broadcast use vstd::seq_lib::group_to_multiset_ensures;

        assert(applied.m5_spec().to_multiset() == self.m5_spec().to_multiset().insert(value));
        assert(removed.m5_spec().to_multiset() =~= self.m5_spec().to_multiset());
        self.pipeline_spec().lemma_eval_permutation(
            self.base_spec(),
            removed.m1_spec(),
            removed.m2_spec(),
            removed.m3_spec(),
            removed.m4_spec(),
            removed.m5_spec(),
            removed.m6_spec(),
            removed.m7_spec(),
            removed.m8_spec(),
            self.m1_spec(),
            self.m2_spec(),
            self.m3_spec(),
            self.m4_spec(),
            self.m5_spec(),
            self.m6_spec(),
            self.m7_spec(),
            self.m8_spec(),
        );
        assert forall|x: M5| removed.m5_spec().contains(x) == self.m5_spec().contains(
            x,
        ) by {
            assert(removed.m5_spec().contains(x) <==> removed.m5_spec().to_multiset().count(x)
                > 0);
            assert(self.m5_spec().contains(x) <==> self.m5_spec().to_multiset().count(x) > 0);
        }
    }

    /// Applying a modifier to slot 6 and then removing it returns the
    /// aggregator to its pre-apply state as far as `get` and `has` can
    /// observe.
    pub proof fn lemma_apply_remove_roundtrip_m6(
        self,
        applied: Self,
        removed: Self,
        value: M6,
    )
        requires
            applied.base_spec() == self.base_spec(),
            applied.pipeline_spec() == self.pipeline_spec(),
            applied.m1_spec() == self.m1_spec(),
            applied.m2_spec() == self.m2_spec(),
            applied.m3_spec() == self.m3_spec(),
            applied.m4_spec() == self.m4_spec(),
            applied.m5_spec() == self.m5_spec(),
            applied.m7_spec() == self.m7_spec(),
            applied.m8_spec() == self.m8_spec(),
            applied.m6_spec() == self.m6_spec().push(value),
            removed.base_spec() == applied.base_spec(),
            removed.pipeline_spec() == applied.pipeline_spec(),
            removed.m1_spec() == applied.m1_spec(),
            removed.m2_spec() == applied.m2_spec(),
            removed.m3_spec() == applied.m3_spec(),
            removed.m4_spec() == applied.m4_spec(),
            removed.m5_spec() == applied.m5_spec(),
            removed.m7_spec() == applied.m7_spec(),
            removed.m8_spec() == applied.m8_spec(),
            removed.m6_spec().to_multiset() == applied.m6_spec().to_multiset().remove(
                value,
            ),
        ensures
            removed.value_spec() == self.value_spec(),
            forall|x: M6| removed.m6_spec().contains(x) == self.m6_spec().contains(x),
    {
        broadcast use vstd::seq_lib::group_to_multiset_ensures;

        assert(applied.m6_spec().to_multiset() == self.m6_spec().to_multiset().insert(value));
        assert(removed.m6_spec().to_multiset() =~= self.m6_spec().to_multiset());
        self.pipeline_spec().lemma_eval_permutation(
            self.base_spec(),
            removed.m1_spec(),
            removed.m2_spec(),
            removed.m3_spec(),
            removed.m4_spec(),
            removed.m5_spec(),
            removed.m6_spec(),
            removed.m7_spec(),
            removed.m8_spec(),
            self.m1_spec(),
            self.m2_spec(),
            self.m3_spec(),
            self.m4_spec(),
            self.m5_spec(),
            self.m6_spec(),
            self.m7_spec(),
            self.m8_spec(),
        );
        assert forall|x: M6| removed.m6_spec().contains(x) == self.m6_spec().contains(
            x,
        ) by {
            assert(removed.m6_spec().contains(x) <==> removed.m6_spec().to_multiset().count(x)
                > 0);
            assert(self.m6_spec().contains(x) <==> self.m6_spec().to_multiset().count(x) > 0);
        }
    }

    /// Applying a modifier to slot 7 and then removing it returns the
    /// aggregator to its pre-apply state as far as `get` and `has` can
    /// observe.
    pub proof fn lemma_apply_remove_roundtrip_m7(
        self,
        applied: Self,
        removed: Self,
        value: M7,
    )
        requires
            applied.base_spec() == self.base_spec(),
            applied.pipeline_spec() == self.pipeline_spec(),
            applied.m1_spec() == self.m1_spec(),
            applied.m2_spec() == self.m2_spec(),
            applied.m3_spec() == self.m3_spec(),
            applied.m4_spec() == self.m4_spec(),
            applied.m5_spec() == self.m5_spec(),
            applied.m6_spec() == self.m6_spec(),
            applied.m8_spec() == self.m8_spec(),
            applied.m7_spec() == self.m7_spec().push(value),
            removed.base_spec() == applied.base_spec(),
            removed.pipeline_spec() == applied.pipeline_spec(),
            removed.m1_spec() == applied.m1_spec(),
            removed.m2_spec() == applied.m2_spec(),
            removed.m3_spec() == applied.m3_spec(),
            removed.m4_spec() == applied.m4_spec(),
            removed.m5_spec() == applied.m5_spec(),
            removed.m6_spec() == applied.m6_spec(),
            removed.m8_spec() == applied.m8_spec(),
            removed.m7_spec().to_multiset() == applied.m7_spec().to_multiset().remove(
                value,
            ),
        ensures
            removed.value_spec() == self.value_spec(),
            forall|x: M7| removed.m7_spec().contains(x) == self.m7_spec().contains(x),
    {
        broadcast use vstd::seq_lib::group_to_multiset_ensures;

        assert(applied.m7_spec().to_multiset() == self.m7_spec().to_multiset().insert(value));
        assert(removed.m7_spec().to_multiset() =~= self.m7_spec().to_multiset());
        self.pipeline_spec().lemma_eval_permutation(
            self.base_spec(),
            removed.m1_spec(),
            removed.m2_spec(),
            removed.m3_spec(),
            removed.m4_spec(),
            removed.m5_spec(),
            removed.m6_spec(),
            removed.m7_spec(),
            removed.m8_spec(),
            self.m1_spec(),
            self.m2_spec(),
            self.m3_spec(),
            self.m4_spec(),
            self.m5_spec(),
            self.m6_spec(),
            self.m7_spec(),
            self.m8_spec(),
        );
        assert forall|x: M7| removed.m7_spec().contains(x) == self.m7_spec().contains(
            x,
        ) by {
            assert(removed.m7_spec().contains(x) <==> removed.m7_spec().to_multiset().count(x)
                > 0);
            assert(self.m7_spec().contains(x) <==> self.m7_spec().to_multiset().count(x) > 0);
        }
    }

    /// Applying a modifier to slot 8 and then removing it returns the
    /// aggregator to its pre-apply state as far as `get` and `has` can
    /// observe.
    pub proof fn lemma_apply_remove_roundtrip_m8(
        self,
        applied: Self,
        removed: Self,
        value: M8,
    )
        requires
            applied.base_spec() == self.base_spec(),
            applied.pipeline_spec() == self.pipeline_spec(),
            applied.m1_spec() == self.m1_spec(),
            applied.m2_spec() == self.m2_spec(),
            applied.m3_spec() == self.m3_spec(),
            applied.m4_spec() == self.m4_spec(),
            applied.m5_spec() == self.m5_spec(),
            applied.m6_spec() == self.m6_spec(),
            applied.m7_spec() == self.m7_spec(),
            applied.m8_spec() == self.m8_spec().push(value),
            removed.base_spec() == applied.base_spec(),
            removed.pipeline_spec() == applied.pipeline_spec(),
            removed.m1_spec() == applied.m1_spec(),
            removed.m2_spec() == applied.m2_spec(),
            removed.m3_spec() == applied.m3_spec(),
            removed.m4_spec() == applied.m4_spec(),
            removed.m5_spec() == applied.m5_spec(),
            removed.m6_spec() == applied.m6_spec(),
            removed.m7_spec() == applied.m7_spec(),
            removed.m8_spec().to_multiset() == applied.m8_spec().to_multiset().remove(
                value,
            ),
        ensures
            removed.value_spec() == self.value_spec(),
            forall|x: M8| removed.m8_spec().contains(x) == self.m8_spec().contains(x),
    {
        broadcast use vstd::seq_lib::group_to_multiset_ensures;

        assert(applied.m8_spec().to_multiset() == self.m8_spec().to_multiset().insert(value));
        assert(removed.m8_spec().to_multiset() =~= self.m8_spec().to_multiset());
        self.pipeline_spec().lemma_eval_permutation(
            self.base_spec(),
            removed.m1_spec(),
            removed.m2_spec(),
            removed.m3_spec(),
            removed.m4_spec(),
            removed.m5_spec(),
            removed.m6_spec(),
            removed.m7_spec(),
            removed.m8_spec(),
            self.m1_spec(),
            self.m2_spec(),
            self.m3_spec(),
            self.m4_spec(),
            self.m5_spec(),
            self.m6_spec(),
            self.m7_spec(),
            self.m8_spec(),
        );
        assert forall|x: M8| removed.m8_spec().contains(x) == self.m8_spec().contains(
            x,
        ) by {
            assert(removed.m8_spec().contains(x) <==> removed.m8_spec().to_multiset().count(x)
                > 0);
            assert(self.m8_spec().contains(x) <==> self.m8_spec().to_multiset().count(x) > 0);
        }
    }

}

} // verus!

//! The standard modifier categories. Each is a plain record of a raw
//! payload — and, for the metadata-carrying categories, optional opaque
//! metadata used for provenance, never for computation — with a
//! category-specific combine rule. The flat and "post" categories sum
//! from identity 0, the additive category sums from identity 1 (each
//! payload is a multiplier offset), and the multiplicative category
//! multiplies from identity 1.

use vstd::prelude::*;
use vstd::seq_lib::{commutative_foldl, lemma_fold_left_permutation};
use core::marker::PhantomData;
use crate::raw::{
    EqValue,
    RawValue,
    lemma_fold_left_uniform_add,
    lemma_fold_left_uniform_mul,
    repeat_add,
    repeat_mul,
};
use crate::stat::StatMarker;
use super::Modifier;

verus! {

/// A flat bonus: combined by summing the payloads from the identity 0.
pub struct Flat<Marker, Raw, Metadata> where
    Marker: StatMarker,
    Raw: RawValue,
    Metadata: EqValue,
 {
    pub raw: Raw,
    pub metadata: Option<Metadata>,
    pub phantom: PhantomData<Marker>,
}

impl<Marker, Raw, Metadata> Clone for Flat<Marker, Raw, Metadata> where
    Marker: StatMarker,
    Raw: RawValue,
    Metadata: EqValue,
 {
    fn clone(&self) -> (r: Self)
        ensures
            r == *self,
    {
        Flat { raw: self.raw, metadata: self.metadata, phantom: PhantomData }
    }
}

impl<Marker, Raw, Metadata> Copy for Flat<Marker, Raw, Metadata> where
    Marker: StatMarker,
    Raw: RawValue,
    Metadata: EqValue,
 {

}

impl<Marker, Raw, Metadata> Flat<Marker, Raw, Metadata> where
    Marker: StatMarker,
    Raw: RawValue,
    Metadata: EqValue,
 {
    /// Finalizes a builder chain, returning the value by copy.
    pub fn build(&mut self) -> (r: Self)
        ensures
            r == *old(self),
            *final(self) == *old(self),
    {
        *self
    }

    /// Builder-style mutator for the metadata; the modifier is finalized
    /// with `build`.
    pub fn set_metadata(&mut self, metadata: Option<Metadata>) -> (r: &mut Self)
        ensures
            *r == (Flat { metadata, ..*old(self) }),
            *final(self) == *final(r),
    {
        self.metadata = metadata;
        self
    }

    /// The attached metadata, if any.
    pub fn metadata(&self) -> (r: Option<Metadata>)
        ensures
            r == self.metadata,
    {
        self.metadata
    }
}

impl<Marker, Raw, Metadata> Modifier for Flat<Marker, Raw, Metadata> where
    Marker: StatMarker<Raw = Raw>,
    Raw: RawValue,
    Metadata: EqValue,
 {
    type Target = Marker;

    open spec fn from_raw_spec(raw: Raw) -> Self {
        Flat { raw, metadata: None, phantom: PhantomData }
    }

    open spec fn raw_spec(self) -> Raw {
        self.raw
    }

    open spec fn combine_spec(s: Seq<Self>) -> Raw {
        s.fold_left(Raw::zero_spec(), |acc: Raw, m: Self| acc.add_spec(m.raw))
    }

    fn from_raw(raw: Raw) -> (r: Self) {
        Flat { raw, metadata: None, phantom: PhantomData }
    }

    fn raw(&self) -> (r: Raw) {
        self.raw
    }

    fn eq_mod(&self, other: &Self) -> (r: bool) {
        self.raw.eq_value(&other.raw) && match (self.metadata, other.metadata) {
            (None, None) => true,
            (Some(a), Some(b)) => a.eq_value(&b),
            _ => false,
        }
    }

    fn combine(s: &Vec<Self>) -> (r: Raw) {
        let mut acc = Raw::raw_zero();
        let mut i: usize = 0;
        while i < s.len()
            invariant
                i <= s@.len(),
                acc == Self::combine_spec(s@.take(i as int)),
            decreases s@.len() - i,
        {
            proof {
                assert(s@.take(i + 1).drop_last() =~= s@.take(i as int));
            }
            acc = acc.raw_add(s[i].raw);
            i = i + 1;
        }
        proof {
            assert(s@.take(s@.len() as int) =~= s@);
        }
        acc
    }

    proof fn lemma_combine_permutation(s: Seq<Self>, t: Seq<Self>) {
        let f = |acc: Raw, m: Self| acc.add_spec(m.raw);
        assert(commutative_foldl(f)) by {
            assert forall|x: Self, y: Self, v: Raw| #[trigger] f(f(v, x), y) == f(f(v, y), x) by {
                Raw::lemma_add_exchange(v, x.raw, y.raw);
            }
        }
        lemma_fold_left_permutation(s, t, f, Raw::zero_spec());
    }
}

/// Combining `k` modifiers of this category, each with payload `x`,
/// yields `x` summed `k` times onto the identity.
pub proof fn lemma_flat_combine_uniform<Marker, Raw, Metadata>(s: Seq<Flat<Marker, Raw, Metadata>>, x: Raw) where
    Marker: StatMarker<Raw = Raw>,
    Raw: RawValue,
    Metadata: EqValue,

    requires
        forall|i: int| 0 <= i < s.len() ==> s[i].raw == x,
    ensures
        Flat::combine_spec(s) == repeat_add(Raw::zero_spec(), x, s.len()),
{
    let f = |acc: Raw, m: Flat<Marker, Raw, Metadata>| acc.add_spec(m.raw);
    let g = |m: Flat<Marker, Raw, Metadata>| m.raw;
    lemma_fold_left_uniform_add(s, f, g, x, Raw::zero_spec());
}

/// An additive percentage modifier: each payload is an offset to a
/// multiplier, so the category combines by summing the offsets from the
/// identity 1 — an empty category yields the neutral multiplier.
pub struct Additive<Marker, Raw, Metadata> where
    Marker: StatMarker,
    Raw: RawValue,
    Metadata: EqValue,
 {
    pub raw: Raw,
    pub metadata: Option<Metadata>,
    pub phantom: PhantomData<Marker>,
}

impl<Marker, Raw, Metadata> Clone for Additive<Marker, Raw, Metadata> where
    Marker: StatMarker,
    Raw: RawValue,
    Metadata: EqValue,
 {
    fn clone(&self) -> (r: Self)
        ensures
            r == *self,
    {
        Additive { raw: self.raw, metadata: self.metadata, phantom: PhantomData }
    }
}

impl<Marker, Raw, Metadata> Copy for Additive<Marker, Raw, Metadata> where
    Marker: StatMarker,
    Raw: RawValue,
    Metadata: EqValue,
 {

}

impl<Marker, Raw, Metadata> Additive<Marker, Raw, Metadata> where
    Marker: StatMarker,
    Raw: RawValue,
    Metadata: EqValue,
 {
    /// Finalizes a builder chain, returning the value by copy.
    pub fn build(&mut self) -> (r: Self)
        ensures
            r == *old(self),
            *final(self) == *old(self),
    {
        *self
    }

    /// Builder-style mutator for the metadata; the modifier is finalized
    /// with `build`.
    pub fn set_metadata(&mut self, metadata: Option<Metadata>) -> (r: &mut Self)
        ensures
            *r == (Additive { metadata, ..*old(self) }),
            *final(self) == *final(r),
    {
        self.metadata = metadata;
        self
    }

    /// The attached metadata, if any.
    pub fn metadata(&self) -> (r: Option<Metadata>)
        ensures
            r == self.metadata,
    {
        self.metadata
    }
}

impl<Marker, Raw, Metadata> Modifier for Additive<Marker, Raw, Metadata> where
    Marker: StatMarker<Raw = Raw>,
    Raw: RawValue,
    Metadata: EqValue,
 {
    type Target = Marker;

    open spec fn from_raw_spec(raw: Raw) -> Self {
        Additive { raw, metadata: None, phantom: PhantomData }
    }

    open spec fn raw_spec(self) -> Raw {
        self.raw
    }

    open spec fn combine_spec(s: Seq<Self>) -> Raw {
        s.fold_left(Raw::one_spec(), |acc: Raw, m: Self| acc.add_spec(m.raw))
    }

    fn from_raw(raw: Raw) -> (r: Self) {
        Additive { raw, metadata: None, phantom: PhantomData }
    }

    fn raw(&self) -> (r: Raw) {
        self.raw
    }

    fn eq_mod(&self, other: &Self) -> (r: bool) {
        self.raw.eq_value(&other.raw) && match (self.metadata, other.metadata) {
            (None, None) => true,
            (Some(a), Some(b)) => a.eq_value(&b),
            _ => false,
        }
    }

    fn combine(s: &Vec<Self>) -> (r: Raw) {
        let mut acc = Raw::raw_one();
        let mut i: usize = 0;
        while i < s.len()
            invariant
                i <= s@.len(),
                acc == Self::combine_spec(s@.take(i as int)),
            decreases s@.len() - i,
        {
            proof {
                assert(s@.take(i + 1).drop_last() =~= s@.take(i as int));
            }
            acc = acc.raw_add(s[i].raw);
            i = i + 1;
        }
        proof {
            assert(s@.take(s@.len() as int) =~= s@);
        }
        acc
    }

    proof fn lemma_combine_permutation(s: Seq<Self>, t: Seq<Self>) {
        let f = |acc: Raw, m: Self| acc.add_spec(m.raw);
        assert(commutative_foldl(f)) by {
            assert forall|x: Self, y: Self, v: Raw| #[trigger] f(f(v, x), y) == f(f(v, y), x) by {
                Raw::lemma_add_exchange(v, x.raw, y.raw);
            }
        }
        lemma_fold_left_permutation(s, t, f, Raw::one_spec());
    }
}

/// Combining `k` modifiers of this category, each with payload `x`,
/// yields `x` summed `k` times onto the identity.
pub proof fn lemma_additive_combine_uniform<Marker, Raw, Metadata>(s: Seq<Additive<Marker, Raw, Metadata>>, x: Raw) where
    Marker: StatMarker<Raw = Raw>,
    Raw: RawValue,
    Metadata: EqValue,

    requires
        forall|i: int| 0 <= i < s.len() ==> s[i].raw == x,
    ensures
        Additive::combine_spec(s) == repeat_add(Raw::one_spec(), x, s.len()),
{
    let f = |acc: Raw, m: Additive<Marker, Raw, Metadata>| acc.add_spec(m.raw);
    let g = |m: Additive<Marker, Raw, Metadata>| m.raw;
    lemma_fold_left_uniform_add(s, f, g, x, Raw::one_spec());
}

/// A post-additive bonus, applied after the additive scaling stage:
/// combined by summing the payloads from the identity 0.
pub struct PostAdditive<Marker, Raw, Metadata> where
    Marker: StatMarker,
    Raw: RawValue,
    Metadata: EqValue,
 {
    pub raw: Raw,
    pub metadata: Option<Metadata>,
    pub phantom: PhantomData<Marker>,
}

impl<Marker, Raw, Metadata> Clone for PostAdditive<Marker, Raw, Metadata> where
    Marker: StatMarker,
    Raw: RawValue,
    Metadata: EqValue,
 {
    fn clone(&self) -> (r: Self)
        ensures
            r == *self,
    {
        PostAdditive { raw: self.raw, metadata: self.metadata, phantom: PhantomData }
    }
}

impl<Marker, Raw, Metadata> Copy for PostAdditive<Marker, Raw, Metadata> where
    Marker: StatMarker,
    Raw: RawValue,
    Metadata: EqValue,
 {

}

impl<Marker, Raw, Metadata> PostAdditive<Marker, Raw, Metadata> where
    Marker: StatMarker,
    Raw: RawValue,
    Metadata: EqValue,
 {
    /// Finalizes a builder chain, returning the value by copy.
    pub fn build(&mut self) -> (r: Self)
        ensures
            r == *old(self),
            *final(self) == *old(self),
    {
        *self
    }

    /// Builder-style mutator for the metadata; the modifier is finalized
    /// with `build`.
    pub fn set_metadata(&mut self, metadata: Option<Metadata>) -> (r: &mut Self)
        ensures
            *r == (PostAdditive { metadata, ..*old(self) }),
            *final(self) == *final(r),
    {
        self.metadata = metadata;
        self
    }

    /// The attached metadata, if any.
    pub fn metadata(&self) -> (r: Option<Metadata>)
        ensures
            r == self.metadata,
    {
        self.metadata
    }
}

impl<Marker, Raw, Metadata> Modifier for PostAdditive<Marker, Raw, Metadata> where
    Marker: StatMarker<Raw = Raw>,
    Raw: RawValue,
    Metadata: EqValue,
 {
    type Target = Marker;

    open spec fn from_raw_spec(raw: Raw) -> Self {
        PostAdditive { raw, metadata: None, phantom: PhantomData }
    }

    open spec fn raw_spec(self) -> Raw {
        self.raw
    }

    open spec fn combine_spec(s: Seq<Self>) -> Raw {
        s.fold_left(Raw::zero_spec(), |acc: Raw, m: Self| acc.add_spec(m.raw))
    }

    fn from_raw(raw: Raw) -> (r: Self) {
        PostAdditive { raw, metadata: None, phantom: PhantomData }
    }

    fn raw(&self) -> (r: Raw) {
        self.raw
    }

    fn eq_mod(&self, other: &Self) -> (r: bool) {
        self.raw.eq_value(&other.raw) && match (self.metadata, other.metadata) {
            (None, None) => true,
            (Some(a), Some(b)) => a.eq_value(&b),
            _ => false,
        }
    }

    fn combine(s: &Vec<Self>) -> (r: Raw) {
        let mut acc = Raw::raw_zero();
        let mut i: usize = 0;
        while i < s.len()
            invariant
                i <= s@.len(),
                acc == Self::combine_spec(s@.take(i as int)),
            decreases s@.len() - i,
        {
            proof {
                assert(s@.take(i + 1).drop_last() =~= s@.take(i as int));
            }
            acc = acc.raw_add(s[i].raw);
            i = i + 1;
        }
        proof {
            assert(s@.take(s@.len() as int) =~= s@);
        }
        acc
    }

    proof fn lemma_combine_permutation(s: Seq<Self>, t: Seq<Self>) {
        let f = |acc: Raw, m: Self| acc.add_spec(m.raw);
        assert(commutative_foldl(f)) by {
            assert forall|x: Self, y: Self, v: Raw| #[trigger] f(f(v, x), y) == f(f(v, y), x) by {
                Raw::lemma_add_exchange(v, x.raw, y.raw);
            }
        }
        lemma_fold_left_permutation(s, t, f, Raw::zero_spec());
    }
}

/// Combining `k` modifiers of this category, each with payload `x`,
/// yields `x` summed `k` times onto the identity.
pub proof fn lemma_post_additive_combine_uniform<Marker, Raw, Metadata>(s: Seq<PostAdditive<Marker, Raw, Metadata>>, x: Raw) where
    Marker: StatMarker<Raw = Raw>,
    Raw: RawValue,
    Metadata: EqValue,

    requires
        forall|i: int| 0 <= i < s.len() ==> s[i].raw == x,
    ensures
        PostAdditive::combine_spec(s) == repeat_add(Raw::zero_spec(), x, s.len()),
{
    let f = |acc: Raw, m: PostAdditive<Marker, Raw, Metadata>| acc.add_spec(m.raw);
    let g = |m: PostAdditive<Marker, Raw, Metadata>| m.raw;
    lemma_fold_left_uniform_add(s, f, g, x, Raw::zero_spec());
}

/// A multiplicative factor: combined by multiplying the payloads from
/// the identity 1.
pub struct Multiplicative<Marker, Raw, Metadata> where
    Marker: StatMarker,
    Raw: RawValue,
    Metadata: EqValue,
 {
    pub raw: Raw,
    pub metadata: Option<Metadata>,
    pub phantom: PhantomData<Marker>,
}

impl<Marker, Raw, Metadata> Clone for Multiplicative<Marker, Raw, Metadata> where
    Marker: StatMarker,
    Raw: RawValue,
    Metadata: EqValue,
 {
    fn clone(&self) -> (r: Self)
        ensures
            r == *self,
    {
        Multiplicative { raw: self.raw, metadata: self.metadata, phantom: PhantomData }
    }
}

impl<Marker, Raw, Metadata> Copy for Multiplicative<Marker, Raw, Metadata> where
    Marker: StatMarker,
    Raw: RawValue,
    Metadata: EqValue,
 {

}

impl<Marker, Raw, Metadata> Multiplicative<Marker, Raw, Metadata> where
    Marker: StatMarker,
    Raw: RawValue,
    Metadata: EqValue,
 {
    /// Finalizes a builder chain, returning the value by copy.
    pub fn build(&mut self) -> (r: Self)
        ensures
            r == *old(self),
            *final(self) == *old(self),
    {
        *self
    }

    /// Builder-style mutator for the metadata; the modifier is finalized
    /// with `build`.
    pub fn set_metadata(&mut self, metadata: Option<Metadata>) -> (r: &mut Self)
        ensures
            *r == (Multiplicative { metadata, ..*old(self) }),
            *final(self) == *final(r),
    {
        self.metadata = metadata;
        self
    }

    /// The attached metadata, if any.
    pub fn metadata(&self) -> (r: Option<Metadata>)
        ensures
            r == self.metadata,
    {
        self.metadata
    }
}

impl<Marker, Raw, Metadata> Modifier for Multiplicative<Marker, Raw, Metadata> where
    Marker: StatMarker<Raw = Raw>,
    Raw: RawValue,
    Metadata: EqValue,
 {
    type Target = Marker;

    open spec fn from_raw_spec(raw: Raw) -> Self {
        Multiplicative { raw, metadata: None, phantom: PhantomData }
    }

    open spec fn raw_spec(self) -> Raw {
        self.raw
    }

    open spec fn combine_spec(s: Seq<Self>) -> Raw {
        s.fold_left(Raw::one_spec(), |acc: Raw, m: Self| acc.mul_spec(m.raw))
    }

    fn from_raw(raw: Raw) -> (r: Self) {
        Multiplicative { raw, metadata: None, phantom: PhantomData }
    }

    fn raw(&self) -> (r: Raw) {
        self.raw
    }

    fn eq_mod(&self, other: &Self) -> (r: bool) {
        self.raw.eq_value(&other.raw) && match (self.metadata, other.metadata) {
            (None, None) => true,
            (Some(a), Some(b)) => a.eq_value(&b),
            _ => false,
        }
    }

    fn combine(s: &Vec<Self>) -> (r: Raw) {
        let mut acc = Raw::raw_one();
        let mut i: usize = 0;
        while i < s.len()
            invariant
                i <= s@.len(),
                acc == Self::combine_spec(s@.take(i as int)),
            decreases s@.len() - i,
        {
            proof {
                assert(s@.take(i + 1).drop_last() =~= s@.take(i as int));
            }
            acc = acc.raw_mul(s[i].raw);
            i = i + 1;
        }
        proof {
            assert(s@.take(s@.len() as int) =~= s@);
        }
        acc
    }

    proof fn lemma_combine_permutation(s: Seq<Self>, t: Seq<Self>) {
        let f = |acc: Raw, m: Self| acc.mul_spec(m.raw);
        assert(commutative_foldl(f)) by {
            assert forall|x: Self, y: Self, v: Raw| #[trigger] f(f(v, x), y) == f(f(v, y), x) by {
                Raw::lemma_mul_exchange(v, x.raw, y.raw);
            }
        }
        lemma_fold_left_permutation(s, t, f, Raw::one_spec());
    }
}

/// Combining `k` modifiers of this category, each with payload `x`,
/// yields `x` multiplied `k` times onto the identity.
pub proof fn lemma_multiplicative_combine_uniform<Marker, Raw, Metadata>(s: Seq<Multiplicative<Marker, Raw, Metadata>>, x: Raw) where
    Marker: StatMarker<Raw = Raw>,
    Raw: RawValue,
    Metadata: EqValue,

    requires
        forall|i: int| 0 <= i < s.len() ==> s[i].raw == x,
    ensures
        Multiplicative::combine_spec(s) == repeat_mul(Raw::one_spec(), x, s.len()),
{
    let f = |acc: Raw, m: Multiplicative<Marker, Raw, Metadata>| acc.mul_spec(m.raw);
    let g = |m: Multiplicative<Marker, Raw, Metadata>| m.raw;
    lemma_fold_left_uniform_mul(s, f, g, x, Raw::one_spec());
}

/// A post-multiplicative bonus, added after the multiplicative stage:
/// combined by summing the payloads from the identity 0.
pub struct PostMultiplicative<Marker, Raw, Metadata> where
    Marker: StatMarker,
    Raw: RawValue,
    Metadata: EqValue,
 {
    pub raw: Raw,
    pub metadata: Option<Metadata>,
    pub phantom: PhantomData<Marker>,
}

impl<Marker, Raw, Metadata> Clone for PostMultiplicative<Marker, Raw, Metadata> where
    Marker: StatMarker,
    Raw: RawValue,
    Metadata: EqValue,
 {
    fn clone(&self) -> (r: Self)
        ensures
            r == *self,
    {
        PostMultiplicative { raw: self.raw, metadata: self.metadata, phantom: PhantomData }
    }
}

impl<Marker, Raw, Metadata> Copy for PostMultiplicative<Marker, Raw, Metadata> where
    Marker: StatMarker,
    Raw: RawValue,
    Metadata: EqValue,
 {

}

impl<Marker, Raw, Metadata> PostMultiplicative<Marker, Raw, Metadata> where
    Marker: StatMarker,
    Raw: RawValue,
    Metadata: EqValue,
 {
    /// Finalizes a builder chain, returning the value by copy.
    pub fn build(&mut self) -> (r: Self)
        ensures
            r == *old(self),
            *final(self) == *old(self),
    {
        *self
    }

    /// Builder-style mutator for the metadata; the modifier is finalized
    /// with `build`.
    pub fn set_metadata(&mut self, metadata: Option<Metadata>) -> (r: &mut Self)
        ensures
            *r == (PostMultiplicative { metadata, ..*old(self) }),
            *final(self) == *final(r),
    {
        self.metadata = metadata;
        self
    }

    /// The attached metadata, if any.
    pub fn metadata(&self) -> (r: Option<Metadata>)
        ensures
            r == self.metadata,
    {
        self.metadata
    }
}

impl<Marker, Raw, Metadata> Modifier for PostMultiplicative<Marker, Raw, Metadata> where
    Marker: StatMarker<Raw = Raw>,
    Raw: RawValue,
    Metadata: EqValue,
 {
    type Target = Marker;

    open spec fn from_raw_spec(raw: Raw) -> Self {
        PostMultiplicative { raw, metadata: None, phantom: PhantomData }
    }

    open spec fn raw_spec(self) -> Raw {
        self.raw
    }

    open spec fn combine_spec(s: Seq<Self>) -> Raw {
        s.fold_left(Raw::zero_spec(), |acc: Raw, m: Self| acc.add_spec(m.raw))
    }

    fn from_raw(raw: Raw) -> (r: Self) {
        PostMultiplicative { raw, metadata: None, phantom: PhantomData }
    }

    fn raw(&self) -> (r: Raw) {
        self.raw
    }

    fn eq_mod(&self, other: &Self) -> (r: bool) {
        self.raw.eq_value(&other.raw) && match (self.metadata, other.metadata) {
            (None, None) => true,
            (Some(a), Some(b)) => a.eq_value(&b),
            _ => false,
        }
    }

    fn combine(s: &Vec<Self>) -> (r: Raw) {
        let mut acc = Raw::raw_zero();
        let mut i: usize = 0;
        while i < s.len()
            invariant
                i <= s@.len(),
                acc == Self::combine_spec(s@.take(i as int)),
            decreases s@.len() - i,
        {
            proof {
                assert(s@.take(i + 1).drop_last() =~= s@.take(i as int));
            }
            acc = acc.raw_add(s[i].raw);
            i = i + 1;
        }
        proof {
            assert(s@.take(s@.len() as int) =~= s@);
        }
        acc
    }

    proof fn lemma_combine_permutation(s: Seq<Self>, t: Seq<Self>) {
        let f = |acc: Raw, m: Self| acc.add_spec(m.raw);
        assert(commutative_foldl(f)) by {
            assert forall|x: Self, y: Self, v: Raw| #[trigger] f(f(v, x), y) == f(f(v, y), x) by {
                Raw::lemma_add_exchange(v, x.raw, y.raw);
            }
        }
        lemma_fold_left_permutation(s, t, f, Raw::zero_spec());
    }
}

/// Combining `k` modifiers of this category, each with payload `x`,
/// yields `x` summed `k` times onto the identity.
pub proof fn lemma_post_multiplicative_combine_uniform<Marker, Raw, Metadata>(s: Seq<PostMultiplicative<Marker, Raw, Metadata>>, x: Raw) where
    Marker: StatMarker<Raw = Raw>,
    Raw: RawValue,
    Metadata: EqValue,

    requires
        forall|i: int| 0 <= i < s.len() ==> s[i].raw == x,
    ensures
        PostMultiplicative::combine_spec(s) == repeat_add(Raw::zero_spec(), x, s.len()),
{
    let f = |acc: Raw, m: PostMultiplicative<Marker, Raw, Metadata>| acc.add_spec(m.raw);
    let g = |m: PostMultiplicative<Marker, Raw, Metadata>| m.raw;
    lemma_fold_left_uniform_add(s, f, g, x, Raw::zero_spec());
}

/// A flat bonus applied before any scaling, for the metadata-free
/// pipeline variant: combined by summing the payloads from the identity 0.
pub struct PreFlat<Marker, Raw> where
    Marker: StatMarker,
    Raw: RawValue,
 {
    pub raw: Raw,
    pub phantom: PhantomData<Marker>,
}

impl<Marker, Raw> Clone for PreFlat<Marker, Raw> where
    Marker: StatMarker,
    Raw: RawValue,
 {
    fn clone(&self) -> (r: Self)
        ensures
            r == *self,
    {
        PreFlat { raw: self.raw, phantom: PhantomData }
    }
}

impl<Marker, Raw> Copy for PreFlat<Marker, Raw> where
    Marker: StatMarker,
    Raw: RawValue,
 {

}

impl<Marker, Raw> Modifier for PreFlat<Marker, Raw> where
    Marker: StatMarker<Raw = Raw>,
    Raw: RawValue,
 {
    type Target = Marker;

    open spec fn from_raw_spec(raw: Raw) -> Self {
        PreFlat { raw, phantom: PhantomData }
    }

    open spec fn raw_spec(self) -> Raw {
        self.raw
    }

    open spec fn combine_spec(s: Seq<Self>) -> Raw {
        s.fold_left(Raw::zero_spec(), |acc: Raw, m: Self| acc.add_spec(m.raw))
    }

    fn from_raw(raw: Raw) -> (r: Self) {
        PreFlat { raw, phantom: PhantomData }
    }

    fn raw(&self) -> (r: Raw) {
        self.raw
    }

    fn eq_mod(&self, other: &Self) -> (r: bool) {
        self.raw.eq_value(&other.raw)
    }

    fn combine(s: &Vec<Self>) -> (r: Raw) {
        let mut acc = Raw::raw_zero();
        let mut i: usize = 0;
        while i < s.len()
            invariant
                i <= s@.len(),
                acc == Self::combine_spec(s@.take(i as int)),
            decreases s@.len() - i,
        {
            proof {
                assert(s@.take(i + 1).drop_last() =~= s@.take(i as int));
            }
            acc = acc.raw_add(s[i].raw);
            i = i + 1;
        }
        proof {
            assert(s@.take(s@.len() as int) =~= s@);
        }
        acc
    }

    proof fn lemma_combine_permutation(s: Seq<Self>, t: Seq<Self>) {
        let f = |acc: Raw, m: Self| acc.add_spec(m.raw);
        assert(commutative_foldl(f)) by {
            assert forall|x: Self, y: Self, v: Raw| #[trigger] f(f(v, x), y) == f(f(v, y), x) by {
                Raw::lemma_add_exchange(v, x.raw, y.raw);
            }
        }
        lemma_fold_left_permutation(s, t, f, Raw::zero_spec());
    }
}

/// Combining `k` modifiers of this category, each with payload `x`,
/// yields `x` summed `k` times onto the identity.
pub proof fn lemma_pre_flat_combine_uniform<Marker, Raw>(s: Seq<PreFlat<Marker, Raw>>, x: Raw) where
    Marker: StatMarker<Raw = Raw>,
    Raw: RawValue,

    requires
        forall|i: int| 0 <= i < s.len() ==> s[i].raw == x,
    ensures
        PreFlat::combine_spec(s) == repeat_add(Raw::zero_spec(), x, s.len()),
{
    let f = |acc: Raw, m: PreFlat<Marker, Raw>| acc.add_spec(m.raw);
    let g = |m: PreFlat<Marker, Raw>| m.raw;
    lemma_fold_left_uniform_add(s, f, g, x, Raw::zero_spec());
}

/// A flat bonus applied between the two scaling stages, for the
/// metadata-free pipeline variant: combined by summing the payloads from
/// the identity 0.
pub struct MidFlat<Marker, Raw> where
    Marker: StatMarker,
    Raw: RawValue,
 {
    pub raw: Raw,
    pub phantom: PhantomData<Marker>,
}

impl<Marker, Raw> Clone for MidFlat<Marker, Raw> where
    Marker: StatMarker,
    Raw: RawValue,
 {
    fn clone(&self) -> (r: Self)
        ensures
            r == *self,
    {
        MidFlat { raw: self.raw, phantom: PhantomData }
    }
}

impl<Marker, Raw> Copy for MidFlat<Marker, Raw> where
    Marker: StatMarker,
    Raw: RawValue,
 {

}

impl<Marker, Raw> Modifier for MidFlat<Marker, Raw> where
    Marker: StatMarker<Raw = Raw>,
    Raw: RawValue,
 {
    type Target = Marker;

    open spec fn from_raw_spec(raw: Raw) -> Self {
        MidFlat { raw, phantom: PhantomData }
    }

    open spec fn raw_spec(self) -> Raw {
        self.raw
    }

    open spec fn combine_spec(s: Seq<Self>) -> Raw {
        s.fold_left(Raw::zero_spec(), |acc: Raw, m: Self| acc.add_spec(m.raw))
    }

    fn from_raw(raw: Raw) -> (r: Self) {
        MidFlat { raw, phantom: PhantomData }
    }

    fn raw(&self) -> (r: Raw) {
        self.raw
    }

    fn eq_mod(&self, other: &Self) -> (r: bool) {
        self.raw.eq_value(&other.raw)
    }

    fn combine(s: &Vec<Self>) -> (r: Raw) {
        let mut acc = Raw::raw_zero();
        let mut i: usize = 0;
        while i < s.len()
            invariant
                i <= s@.len(),
                acc == Self::combine_spec(s@.take(i as int)),
            decreases s@.len() - i,
        {
            proof {
                assert(s@.take(i + 1).drop_last() =~= s@.take(i as int));
            }
            acc = acc.raw_add(s[i].raw);
            i = i + 1;
        }
        proof {
            assert(s@.take(s@.len() as int) =~= s@);
        }
        acc
    }

    proof fn lemma_combine_permutation(s: Seq<Self>, t: Seq<Self>) {
        let f = |acc: Raw, m: Self| acc.add_spec(m.raw);
        assert(commutative_foldl(f)) by {
            assert forall|x: Self, y: Self, v: Raw| #[trigger] f(f(v, x), y) == f(f(v, y), x) by {
                Raw::lemma_add_exchange(v, x.raw, y.raw);
            }
        }
        lemma_fold_left_permutation(s, t, f, Raw::zero_spec());
    }
}

/// Combining `k` modifiers of this category, each with payload `x`,
/// yields `x` summed `k` times onto the identity.
pub proof fn lemma_mid_flat_combine_uniform<Marker, Raw>(s: Seq<MidFlat<Marker, Raw>>, x: Raw) where
    Marker: StatMarker<Raw = Raw>,
    Raw: RawValue,

    requires
        forall|i: int| 0 <= i < s.len() ==> s[i].raw == x,
    ensures
        MidFlat::combine_spec(s) == repeat_add(Raw::zero_spec(), x, s.len()),
{
    let f = |acc: Raw, m: MidFlat<Marker, Raw>| acc.add_spec(m.raw);
    let g = |m: MidFlat<Marker, Raw>| m.raw;
    lemma_fold_left_uniform_add(s, f, g, x, Raw::zero_spec());
}

/// A flat bonus applied after all scaling, for the metadata-free
/// pipeline variant: combined by summing the payloads from the identity 0.
pub struct PostFlat<Marker, Raw> where
    Marker: StatMarker,
    Raw: RawValue,
 {
    pub raw: Raw,
    pub phantom: PhantomData<Marker>,
}

impl<Marker, Raw> Clone for PostFlat<Marker, Raw> where
    Marker: StatMarker,
    Raw: RawValue,
 {
    fn clone(&self) -> (r: Self)
        ensures
            r == *self,
    {
        PostFlat { raw: self.raw, phantom: PhantomData }
    }
}

impl<Marker, Raw> Copy for PostFlat<Marker, Raw> where
    Marker: StatMarker,
    Raw: RawValue,
 {

}

impl<Marker, Raw> Modifier for PostFlat<Marker, Raw> where
    Marker: StatMarker<Raw = Raw>,
    Raw: RawValue,
 {
    type Target = Marker;

    open spec fn from_raw_spec(raw: Raw) -> Self {
        PostFlat { raw, phantom: PhantomData }
    }

    open spec fn raw_spec(self) -> Raw {
        self.raw
    }

    open spec fn combine_spec(s: Seq<Self>) -> Raw {
        s.fold_left(Raw::zero_spec(), |acc: Raw, m: Self| acc.add_spec(m.raw))
    }

    fn from_raw(raw: Raw) -> (r: Self) {
        PostFlat { raw, phantom: PhantomData }
    }

    fn raw(&self) -> (r: Raw) {
        self.raw
    }

    fn eq_mod(&self, other: &Self) -> (r: bool) {
        self.raw.eq_value(&other.raw)
    }

    fn combine(s: &Vec<Self>) -> (r: Raw) {
        let mut acc = Raw::raw_zero();
        let mut i: usize = 0;
        while i < s.len()
            invariant
                i <= s@.len(),
                acc == Self::combine_spec(s@.take(i as int)),
            decreases s@.len() - i,
        {
            proof {
                assert(s@.take(i + 1).drop_last() =~= s@.take(i as int));
            }
            acc = acc.raw_add(s[i].raw);
            i = i + 1;
        }
        proof {
            assert(s@.take(s@.len() as int) =~= s@);
        }
        acc
    }

    proof fn lemma_combine_permutation(s: Seq<Self>, t: Seq<Self>) {
        let f = |acc: Raw, m: Self| acc.add_spec(m.raw);
        assert(commutative_foldl(f)) by {
            assert forall|x: Self, y: Self, v: Raw| #[trigger] f(f(v, x), y) == f(f(v, y), x) by {
                Raw::lemma_add_exchange(v, x.raw, y.raw);
            }
        }
        lemma_fold_left_permutation(s, t, f, Raw::zero_spec());
    }
}

/// Combining `k` modifiers of this category, each with payload `x`,
/// yields `x` summed `k` times onto the identity.
pub proof fn lemma_post_flat_combine_uniform<Marker, Raw>(s: Seq<PostFlat<Marker, Raw>>, x: Raw) where
    Marker: StatMarker<Raw = Raw>,
    Raw: RawValue,

    requires
        forall|i: int| 0 <= i < s.len() ==> s[i].raw == x,
    ensures
        PostFlat::combine_spec(s) == repeat_add(Raw::zero_spec(), x, s.len()),
{
    let f = |acc: Raw, m: PostFlat<Marker, Raw>| acc.add_spec(m.raw);
    let g = |m: PostFlat<Marker, Raw>| m.raw;
    lemma_fold_left_uniform_add(s, f, g, x, Raw::zero_spec());
}

} // verus!

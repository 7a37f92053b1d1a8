//! The canonical five-slot exclusive-owner stat: slots bound, in order,
//! to a flat, an additive, a post-additive, a multiplicative and a
//! post-multiplicative category, folded by the canonical formula of
//! [`StandardPipeline`].

use vstd::prelude::*;
use crate::modifier::Modifier;
use crate::modifier::standard::{
    Additive,
    Flat,
    MidFlat,
    Multiplicative,
    PostAdditive,
    PostFlat,
    PostMultiplicative,
    PreFlat,
};
use crate::pipeline::{Pipeline5, StandardPipeline, lemma_standard_pipeline_empty};
use crate::raw::{EqValue, NoMetadata, RawValue};
use crate::stat::{StatMarker, Stat5};

verus! {

/// The canonical five-slot exclusive-owner stat over any five categories
/// whose combine identities fit the formula's stages.
#[verifier::reject_recursive_types(Marker)]
pub struct StandardStatNSBase<Marker, F, A, PA, Mu, PM>(
    pub Stat5<Marker, F, A, PA, Mu, PM, StandardPipeline>,
) where
    Marker: StatMarker,
    F: Modifier<Target = Marker>,
    A: Modifier<Target = Marker>,
    PA: Modifier<Target = Marker>,
    Mu: Modifier<Target = Marker>,
    PM: Modifier<Target = Marker>,
;

impl<Marker, F, A, PA, Mu, PM> StandardStatNSBase<Marker, F, A, PA, Mu, PM> where
    Marker: StatMarker,
    F: Modifier<Target = Marker>,
    A: Modifier<Target = Marker>,
    PA: Modifier<Target = Marker>,
    Mu: Modifier<Target = Marker>,
    PM: Modifier<Target = Marker>,
 {
    /// Creates a standard stat with the given base and no modifiers.
    pub fn new(base: Marker::Raw) -> (r: Self)
        ensures
            r.0.base_spec() == base,
            r.0.pipeline_spec() == StandardPipeline,
            r.0.m1_spec() == Seq::<F>::empty(),
            r.0.m2_spec() == Seq::<A>::empty(),
            r.0.m3_spec() == Seq::<PA>::empty(),
            r.0.m4_spec() == Seq::<Mu>::empty(),
            r.0.m5_spec() == Seq::<PM>::empty(),
    {
        StandardStatNSBase(Stat5::new(base, StandardPipeline))
    }

    /// Inserts a modifier into the flat slot.
    pub fn apply_flat(&mut self, value: F)
        ensures
            final(self).0.base_spec() == old(self).0.base_spec(),
            final(self).0.pipeline_spec() == old(self).0.pipeline_spec(),
            final(self).0.m1_spec() == old(self).0.m1_spec().push(value),
            final(self).0.m2_spec() == old(self).0.m2_spec(),
            final(self).0.m3_spec() == old(self).0.m3_spec(),
            final(self).0.m4_spec() == old(self).0.m4_spec(),
            final(self).0.m5_spec() == old(self).0.m5_spec(),
    {
        self.0.apply_m1(value);
    }

    /// Inserts a modifier into the additive slot.
    pub fn apply_additive(&mut self, value: A)
        ensures
            final(self).0.base_spec() == old(self).0.base_spec(),
            final(self).0.pipeline_spec() == old(self).0.pipeline_spec(),
            final(self).0.m1_spec() == old(self).0.m1_spec(),
            final(self).0.m2_spec() == old(self).0.m2_spec().push(value),
            final(self).0.m3_spec() == old(self).0.m3_spec(),
            final(self).0.m4_spec() == old(self).0.m4_spec(),
            final(self).0.m5_spec() == old(self).0.m5_spec(),
    {
        self.0.apply_m2(value);
    }

    /// Inserts a modifier into the post-additive slot.
    pub fn apply_post_add(&mut self, value: PA)
        ensures
            final(self).0.base_spec() == old(self).0.base_spec(),
            final(self).0.pipeline_spec() == old(self).0.pipeline_spec(),
            final(self).0.m1_spec() == old(self).0.m1_spec(),
            final(self).0.m2_spec() == old(self).0.m2_spec(),
            final(self).0.m3_spec() == old(self).0.m3_spec().push(value),
            final(self).0.m4_spec() == old(self).0.m4_spec(),
            final(self).0.m5_spec() == old(self).0.m5_spec(),
    {
        self.0.apply_m3(value);
    }

    /// Inserts a modifier into the multiplicative slot.
    pub fn apply_multiplicative(&mut self, value: Mu)
        ensures
            final(self).0.base_spec() == old(self).0.base_spec(),
            final(self).0.pipeline_spec() == old(self).0.pipeline_spec(),
            final(self).0.m1_spec() == old(self).0.m1_spec(),
            final(self).0.m2_spec() == old(self).0.m2_spec(),
            final(self).0.m3_spec() == old(self).0.m3_spec(),
            final(self).0.m4_spec() == old(self).0.m4_spec().push(value),
            final(self).0.m5_spec() == old(self).0.m5_spec(),
    {
        self.0.apply_m4(value);
    }

    /// Inserts a modifier into the post-multiplicative slot.
    pub fn apply_post_mul(&mut self, value: PM)
        ensures
            final(self).0.base_spec() == old(self).0.base_spec(),
            final(self).0.pipeline_spec() == old(self).0.pipeline_spec(),
            final(self).0.m1_spec() == old(self).0.m1_spec(),
            final(self).0.m2_spec() == old(self).0.m2_spec(),
            final(self).0.m3_spec() == old(self).0.m3_spec(),
            final(self).0.m4_spec() == old(self).0.m4_spec(),
            final(self).0.m5_spec() == old(self).0.m5_spec().push(value),
    {
        self.0.apply_m5(value);
    }

    /// Removes one occurrence equal to `value` from the flat slot; a
    /// no-op if no equal modifier is stored.
    pub fn remove_flat(&mut self, value: F)
        ensures
            final(self).0.base_spec() == old(self).0.base_spec(),
            final(self).0.pipeline_spec() == old(self).0.pipeline_spec(),
            final(self).0.m2_spec() == old(self).0.m2_spec(),
            final(self).0.m3_spec() == old(self).0.m3_spec(),
            final(self).0.m4_spec() == old(self).0.m4_spec(),
            final(self).0.m5_spec() == old(self).0.m5_spec(),
            old(self).0.m1_spec().contains(value)
                ==> final(self).0.m1_spec().to_multiset()
                == old(self).0.m1_spec().to_multiset().remove(value),
            !old(self).0.m1_spec().contains(value)
                ==> final(self).0.m1_spec() == old(self).0.m1_spec(),
    {
        self.0.remove_m1(value);
    }

    /// Removes one occurrence equal to `value` from the additive slot; a
    /// no-op if no equal modifier is stored.
    pub fn remove_additive(&mut self, value: A)
        ensures
            final(self).0.base_spec() == old(self).0.base_spec(),
            final(self).0.pipeline_spec() == old(self).0.pipeline_spec(),
            final(self).0.m1_spec() == old(self).0.m1_spec(),
            final(self).0.m3_spec() == old(self).0.m3_spec(),
            final(self).0.m4_spec() == old(self).0.m4_spec(),
            final(self).0.m5_spec() == old(self).0.m5_spec(),
            old(self).0.m2_spec().contains(value)
                ==> final(self).0.m2_spec().to_multiset()
                == old(self).0.m2_spec().to_multiset().remove(value),
            !old(self).0.m2_spec().contains(value)
                ==> final(self).0.m2_spec() == old(self).0.m2_spec(),
    {
        self.0.remove_m2(value);
    }

    /// Removes one occurrence equal to `value` from the post-additive
    /// slot; a no-op if no equal modifier is stored.
    pub fn remove_post_add(&mut self, value: PA)
        ensures
            final(self).0.base_spec() == old(self).0.base_spec(),
            final(self).0.pipeline_spec() == old(self).0.pipeline_spec(),
            final(self).0.m1_spec() == old(self).0.m1_spec(),
            final(self).0.m2_spec() == old(self).0.m2_spec(),
            final(self).0.m4_spec() == old(self).0.m4_spec(),
            final(self).0.m5_spec() == old(self).0.m5_spec(),
            old(self).0.m3_spec().contains(value)
                ==> final(self).0.m3_spec().to_multiset()
                == old(self).0.m3_spec().to_multiset().remove(value),
            !old(self).0.m3_spec().contains(value)
                ==> final(self).0.m3_spec() == old(self).0.m3_spec(),
    {
        self.0.remove_m3(value);
    }

    /// Removes one occurrence equal to `value` from the multiplicative
    /// slot; a no-op if no equal modifier is stored.
    pub fn remove_multiplicative(&mut self, value: Mu)
        ensures
            final(self).0.base_spec() == old(self).0.base_spec(),
            final(self).0.pipeline_spec() == old(self).0.pipeline_spec(),
            final(self).0.m1_spec() == old(self).0.m1_spec(),
            final(self).0.m2_spec() == old(self).0.m2_spec(),
            final(self).0.m3_spec() == old(self).0.m3_spec(),
            final(self).0.m5_spec() == old(self).0.m5_spec(),
            old(self).0.m4_spec().contains(value)
                ==> final(self).0.m4_spec().to_multiset()
                == old(self).0.m4_spec().to_multiset().remove(value),
            !old(self).0.m4_spec().contains(value)
                ==> final(self).0.m4_spec() == old(self).0.m4_spec(),
    {
        self.0.remove_m4(value);
    }

    /// Removes one occurrence equal to `value` from the
    /// post-multiplicative slot; a no-op if no equal modifier is stored.
    pub fn remove_post_mul(&mut self, value: PM)
        ensures
            final(self).0.base_spec() == old(self).0.base_spec(),
            final(self).0.pipeline_spec() == old(self).0.pipeline_spec(),
            final(self).0.m1_spec() == old(self).0.m1_spec(),
            final(self).0.m2_spec() == old(self).0.m2_spec(),
            final(self).0.m3_spec() == old(self).0.m3_spec(),
            final(self).0.m4_spec() == old(self).0.m4_spec(),
            old(self).0.m5_spec().contains(value)
                ==> final(self).0.m5_spec().to_multiset()
                == old(self).0.m5_spec().to_multiset().remove(value),
            !old(self).0.m5_spec().contains(value)
                ==> final(self).0.m5_spec() == old(self).0.m5_spec(),
    {
        self.0.remove_m5(value);
    }

    /// True if and only if a modifier equal to `value` is stored in the
    /// flat slot.
    pub fn has_flat(&self, value: F) -> (r: bool)
        ensures
            r == self.0.m1_spec().contains(value),
    {
        self.0.has_m1(value)
    }

    /// True if and only if a modifier equal to `value` is stored in the
    /// additive slot.
    pub fn has_additive(&self, value: A) -> (r: bool)
        ensures
            r == self.0.m2_spec().contains(value),
    {
        self.0.has_m2(value)
    }

    /// True if and only if a modifier equal to `value` is stored in the
    /// post-additive slot.
    pub fn has_post_add(&self, value: PA) -> (r: bool)
        ensures
            r == self.0.m3_spec().contains(value),
    {
        self.0.has_m3(value)
    }

    /// True if and only if a modifier equal to `value` is stored in the
    /// multiplicative slot.
    pub fn has_multiplicative(&self, value: Mu) -> (r: bool)
        ensures
            r == self.0.m4_spec().contains(value),
    {
        self.0.has_m4(value)
    }

    /// True if and only if a modifier equal to `value` is stored in the
    /// post-multiplicative slot.
    pub fn has_post_mul(&self, value: PM) -> (r: bool)
        ensures
            r == self.0.m5_spec().contains(value),
    {
        self.0.has_m5(value)
    }

    /// Read-only view of the flat slot for enumeration.
    pub fn flat_modifiers(&self) -> (r: &Vec<F>)
        ensures
            r@ == self.0.m1_spec(),
    {
        self.0.m1()
    }

    /// Read-only view of the additive slot for enumeration.
    pub fn additive_modifiers(&self) -> (r: &Vec<A>)
        ensures
            r@ == self.0.m2_spec(),
    {
        self.0.m2()
    }

    /// Read-only view of the post-additive slot for enumeration.
    pub fn post_add_modifiers(&self) -> (r: &Vec<PA>)
        ensures
            r@ == self.0.m3_spec(),
    {
        self.0.m3()
    }

    /// Read-only view of the multiplicative slot for enumeration.
    pub fn multiplicative_modifiers(&self) -> (r: &Vec<Mu>)
        ensures
            r@ == self.0.m4_spec(),
    {
        self.0.m4()
    }

    /// Read-only view of the post-multiplicative slot for enumeration.
    pub fn post_mul_modifiers(&self) -> (r: &Vec<PM>)
        ensures
            r@ == self.0.m5_spec(),
    {
        self.0.m5()
    }

    /// The immutable base value.
    pub fn base(&self) -> (r: Marker::Raw)
        ensures
            r == self.0.base_spec(),
    {
        self.0.base()
    }

    /// Recomputes the stat with the canonical formula.
    pub fn get(&self) -> (r: Marker::Raw)
        ensures
            r == self.0.value_spec(),
    {
        self.0.get()
    }

    /// With every category empty, the computed value is the base,
    /// provided each category's combine rule yields the identity the
    /// formula's stage expects on an empty collection.
    pub proof fn lemma_empty_value(self)
        requires
            self.0.m1_spec().len() == 0,
            self.0.m2_spec().len() == 0,
            self.0.m3_spec().len() == 0,
            self.0.m4_spec().len() == 0,
            self.0.m5_spec().len() == 0,
            F::combine_spec(Seq::<F>::empty()) == <Marker::Raw as RawValue>::zero_spec(),
            A::combine_spec(Seq::<A>::empty()) == <Marker::Raw as RawValue>::one_spec(),
            PA::combine_spec(Seq::<PA>::empty()) == <Marker::Raw as RawValue>::zero_spec(),
            Mu::combine_spec(Seq::<Mu>::empty()) == <Marker::Raw as RawValue>::one_spec(),
            PM::combine_spec(Seq::<PM>::empty()) == <Marker::Raw as RawValue>::zero_spec(),
        ensures
            self.0.value_spec() == self.0.base_spec(),
    {
        assert(self.0.m1_spec() =~= Seq::<F>::empty());
        assert(self.0.m2_spec() =~= Seq::<A>::empty());
        assert(self.0.m3_spec() =~= Seq::<PA>::empty());
        assert(self.0.m4_spec() =~= Seq::<Mu>::empty());
        assert(self.0.m5_spec() =~= Seq::<PM>::empty());
        lemma_standard_pipeline_empty::<Marker, F, A, PA, Mu, PM>(self.0.base_spec());
    }
}

/// The canonical five-slot exclusive-owner stat over the standard
/// metadata-carrying categories.
pub type StandardStatNS<Marker, Metadata> = StandardStatNSBase<
    Marker,
    Flat<Marker, <Marker as StatMarker>::Raw, Metadata>,
    Additive<Marker, <Marker as StatMarker>::Raw, Metadata>,
    PostAdditive<Marker, <Marker as StatMarker>::Raw, Metadata>,
    Multiplicative<Marker, <Marker as StatMarker>::Raw, Metadata>,
    PostMultiplicative<Marker, <Marker as StatMarker>::Raw, Metadata>,
>;

/// The metadata-free five-slot exclusive-owner stat: the same formula
/// with the flat slots bound to the pre-, mid- and post-flat categories,
/// and modifiers that carry no metadata.
pub type CompactStandardStatNS<Marker> = StandardStatNSBase<
    Marker,
    PreFlat<Marker, <Marker as StatMarker>::Raw>,
    Additive<Marker, <Marker as StatMarker>::Raw, NoMetadata>,
    MidFlat<Marker, <Marker as StatMarker>::Raw>,
    Multiplicative<Marker, <Marker as StatMarker>::Raw, NoMetadata>,
    PostFlat<Marker, <Marker as StatMarker>::Raw>,
>;

/// With every category empty, a standard stat computes exactly its base:
/// the concrete categories combine an empty collection to the identity
/// their stage of the formula expects.
pub proof fn lemma_standard_empty_is_base<Marker, Metadata>(
    stat: StandardStatNS<Marker, Metadata>,
) where
    Marker: StatMarker,
    Metadata: EqValue,

    requires
        stat.0.m1_spec().len() == 0,
        stat.0.m2_spec().len() == 0,
        stat.0.m3_spec().len() == 0,
        stat.0.m4_spec().len() == 0,
        stat.0.m5_spec().len() == 0,
    ensures
        stat.0.value_spec() == stat.0.base_spec(),
{
    stat.lemma_empty_value();
}

} // verus!

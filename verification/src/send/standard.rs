//! The canonical five-slot shared stat: the same slot binding and
//! formula as the exclusive-owner standard stat, with the collections
//! behind a reader-writer lock so that several threads may apply and
//! remove modifiers concurrently.

use vstd::prelude::*;
use crate::modifier::Modifier;
use crate::modifier::standard::{
    Additive,
    Flat,
    MidFlat,
    Multiplicative,
    PostAdditive,
    PostFlat,
    PostMultiplicative,
    PreFlat,
};
use crate::pipeline::{Pipeline5, StandardPipeline};
use crate::raw::NoMetadata;
use crate::send::Stat5S;
use crate::stat::StatMarker;

verus! {

/// The canonical five-slot shared stat over any five categories whose
/// combine identities fit the formula's stages.
#[verifier::reject_recursive_types(Marker)]
pub struct StandardStatSBase<Marker, F, A, PA, Mu, PM>(
    pub Stat5S<Marker, F, A, PA, Mu, PM, StandardPipeline>,
) where
    Marker: StatMarker,
    F: Modifier<Target = Marker>,
    A: Modifier<Target = Marker>,
    PA: Modifier<Target = Marker>,
    Mu: Modifier<Target = Marker>,
    PM: Modifier<Target = Marker>,
;

impl<Marker, F, A, PA, Mu, PM> StandardStatSBase<Marker, F, A, PA, Mu, PM> where
    Marker: StatMarker,
    F: Modifier<Target = Marker>,
    A: Modifier<Target = Marker>,
    PA: Modifier<Target = Marker>,
    Mu: Modifier<Target = Marker>,
    PM: Modifier<Target = Marker>,
 {
    /// Creates a shared standard stat with the given base and no
    /// modifiers.
    pub fn new(base: Marker::Raw) -> (r: Self)
        ensures
            r.0.base_spec() == base,
            r.0.pipeline_spec() == StandardPipeline,
    {
        StandardStatSBase(Stat5S::new(base, StandardPipeline))
    }

    /// Inserts a modifier into the flat slot, under the lock.
    pub fn apply_flat(&self, value: F) {
        self.0.apply_m1(value);
    }

    /// Inserts a modifier into the additive slot, under the lock.
    pub fn apply_additive(&self, value: A) {
        self.0.apply_m2(value);
    }

    /// Inserts a modifier into the post-additive slot, under the lock.
    pub fn apply_post_add(&self, value: PA) {
        self.0.apply_m3(value);
    }

    /// Inserts a modifier into the multiplicative slot, under the lock.
    pub fn apply_multiplicative(&self, value: Mu) {
        self.0.apply_m4(value);
    }

    /// Inserts a modifier into the post-multiplicative slot, under the
    /// lock.
    pub fn apply_post_mul(&self, value: PM) {
        self.0.apply_m5(value);
    }

    /// Removes one occurrence equal to `value` from the flat slot, under
    /// the lock; a no-op if no equal modifier is stored at that moment.
    pub fn remove_flat(&self, value: F) {
        self.0.remove_m1(value);
    }

    /// Removes one occurrence equal to `value` from the additive slot,
    /// under the lock; a no-op if no equal modifier is stored at that
    /// moment.
    pub fn remove_additive(&self, value: A) {
        self.0.remove_m2(value);
    }

    /// Removes one occurrence equal to `value` from the post-additive
    /// slot, under the lock; a no-op if no equal modifier is stored at
    /// that moment.
    pub fn remove_post_add(&self, value: PA) {
        self.0.remove_m3(value);
    }

    /// Removes one occurrence equal to `value` from the multiplicative
    /// slot, under the lock; a no-op if no equal modifier is stored at
    /// that moment.
    pub fn remove_multiplicative(&self, value: Mu) {
        self.0.remove_m4(value);
    }

    /// Removes one occurrence equal to `value` from the
    /// post-multiplicative slot, under the lock; a no-op if no equal
    /// modifier is stored at that moment.
    pub fn remove_post_mul(&self, value: PM) {
        self.0.remove_m5(value);
    }

    /// True if and only if a modifier equal to `value` was stored in the
    /// flat slot while the lock was held.
    pub fn has_flat(&self, value: F) -> bool {
        self.0.has_m1(value)
    }

    /// True if and only if a modifier equal to `value` was stored in the
    /// additive slot while the lock was held.
    pub fn has_additive(&self, value: A) -> bool {
        self.0.has_m2(value)
    }

    /// True if and only if a modifier equal to `value` was stored in the
    /// post-additive slot while the lock was held.
    pub fn has_post_add(&self, value: PA) -> bool {
        self.0.has_m3(value)
    }

    /// True if and only if a modifier equal to `value` was stored in the
    /// multiplicative slot while the lock was held.
    pub fn has_multiplicative(&self, value: Mu) -> bool {
        self.0.has_m4(value)
    }

    /// True if and only if a modifier equal to `value` was stored in the
    /// post-multiplicative slot while the lock was held.
    pub fn has_post_mul(&self, value: PM) -> bool {
        self.0.has_m5(value)
    }

    /// Copies the flat slot's contents out, as they stood while the lock
    /// was held.
    pub fn flat_modifiers(&self) -> Vec<F> {
        self.0.m1_snapshot()
    }

    /// Copies the additive slot's contents out, as they stood while the
    /// lock was held.
    pub fn additive_modifiers(&self) -> Vec<A> {
        self.0.m2_snapshot()
    }

    /// Copies the post-additive slot's contents out, as they stood while
    /// the lock was held.
    pub fn post_add_modifiers(&self) -> Vec<PA> {
        self.0.m3_snapshot()
    }

    /// Copies the multiplicative slot's contents out, as they stood
    /// while the lock was held.
    pub fn multiplicative_modifiers(&self) -> Vec<Mu> {
        self.0.m4_snapshot()
    }

    /// Copies the post-multiplicative slot's contents out, as they stood
    /// while the lock was held.
    pub fn post_mul_modifiers(&self) -> Vec<PM> {
        self.0.m5_snapshot()
    }

    /// The immutable base value; never blocks.
    pub fn base(&self) -> (r: Marker::Raw)
        ensures
            r == self.0.base_spec(),
    {
        self.0.base()
    }

    /// Recomputes the stat under the lock: the result is the canonical
    /// formula applied to the base and the collections held at that
    /// moment.
    pub fn get(&self) -> (r: Marker::Raw)
        ensures
            exists|s1: Seq<F>, s2: Seq<A>, s3: Seq<PA>, s4: Seq<Mu>, s5: Seq<PM>|
                r == self.0.pipeline_spec().eval_spec(self.0.base_spec(), s1, s2, s3, s4, s5),
    {
        self.0.get()
    }
}

/// The canonical five-slot shared stat over the standard
/// metadata-carrying categories.
pub type StandardStatS<Marker, Metadata> = StandardStatSBase<
    Marker,
    Flat<Marker, <Marker as StatMarker>::Raw, Metadata>,
    Additive<Marker, <Marker as StatMarker>::Raw, Metadata>,
    PostAdditive<Marker, <Marker as StatMarker>::Raw, Metadata>,
    Multiplicative<Marker, <Marker as StatMarker>::Raw, Metadata>,
    PostMultiplicative<Marker, <Marker as StatMarker>::Raw, Metadata>,
>;

/// The metadata-free five-slot shared stat: the same formula with the
/// flat slots bound to the pre-, mid- and post-flat categories, and
/// modifiers that carry no metadata.
pub type CompactStandardStatS<Marker> = StandardStatSBase<
    Marker,
    PreFlat<Marker, <Marker as StatMarker>::Raw>,
    Additive<Marker, <Marker as StatMarker>::Raw, NoMetadata>,
    MidFlat<Marker, <Marker as StatMarker>::Raw>,
    Multiplicative<Marker, <Marker as StatMarker>::Raw, NoMetadata>,
    PostFlat<Marker, <Marker as StatMarker>::Raw>,
>;

} // verus!

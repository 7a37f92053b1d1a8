//! The exclusive-owner access wrappers: an aggregator with a single
//! logical owner, for whom aliased re-entrant access is a programming
//! error. Under verification that exclusivity is enforced statically by
//! the borrow discipline, so the wrapper needs no runtime cell and a
//! violation cannot be written at all: reads take a shared borrow,
//! mutations an exclusive one.

use vstd::prelude::*;
use crate::modifier::Modifier;
use crate::pipeline::{Pipeline1, Pipeline2, Pipeline3, Pipeline4, Pipeline5, Pipeline6, Pipeline7, Pipeline8};
use crate::stat::{StatMarker, Stat1, Stat2, Stat3, Stat4, Stat5, Stat6, Stat7, Stat8};

pub mod standard;

verus! {

/// The exclusive-owner counterpart of [`crate::stat::Stat1`]: an
/// aggregator over one modifier category whose single owner applies and
/// removes modifiers through exclusive borrows.
pub struct Stat1NS<Marker, M1, F>(pub Stat1<Marker, M1, F>) where
    Marker: StatMarker,
    M1: Modifier,
    F: Pipeline1<Marker, M1>,
;

impl<Marker, M1, F> Stat1NS<Marker, M1, F> where
    Marker: StatMarker,
    M1: Modifier,
    F: Pipeline1<Marker, M1>,
 {
    /// Creates an exclusive-owner aggregator with no modifiers.
    pub fn new(base: Marker::Raw, f: F) -> (r: Self)
        ensures
            r.0.base_spec() == base,
            r.0.pipeline_spec() == f,
            r.0.m1_spec() == Seq::<M1>::empty(),
    {
        Stat1NS(Stat1::new(base, f))
    }

    /// Inserts a modifier into slot 1.
    pub fn apply_m1(&mut self, value: M1)
        ensures
            final(self).0.base_spec() == old(self).0.base_spec(),
            final(self).0.pipeline_spec() == old(self).0.pipeline_spec(),
            final(self).0.m1_spec() == old(self).0.m1_spec().push(value),
    {
        self.0.apply_m1(value);
    }

    /// Removes one occurrence equal to `value` from slot 1; a no-op if
    /// no equal modifier is stored.
    pub fn remove_m1(&mut self, value: M1)
        ensures
            final(self).0.base_spec() == old(self).0.base_spec(),
            final(self).0.pipeline_spec() == old(self).0.pipeline_spec(),
            old(self).0.m1_spec().contains(value)
                ==> final(self).0.m1_spec().to_multiset()
                == old(self).0.m1_spec().to_multiset().remove(value),
            !old(self).0.m1_spec().contains(value)
                ==> final(self).0.m1_spec() == old(self).0.m1_spec(),
    {
        self.0.remove_m1(value);
    }

    /// True if and only if a modifier equal to `value` is stored in slot
    /// 1.
    pub fn has_m1(&self, value: M1) -> (r: bool)
        ensures
            r == self.0.m1_spec().contains(value),
    {
        self.0.has_m1(value)
    }

    /// The immutable base value.
    pub fn base(&self) -> (r: Marker::Raw)
        ensures
            r == self.0.base_spec(),
    {
        self.0.base()
    }

    /// Recomputes the stat from the base and the current collections.
    pub fn get(&self) -> (r: Marker::Raw)
        ensures
            r == self.0.value_spec(),
    {
        self.0.get()
    }
}

/// The exclusive-owner counterpart of [`crate::stat::Stat2`]: an
/// aggregator over 2 modifier categories whose single owner applies and
/// removes modifiers through exclusive borrows.
pub struct Stat2NS<Marker, M1, M2, F>(pub Stat2<Marker, M1, M2, F>) where
    Marker: StatMarker,
    M1: Modifier,
    M2: Modifier,
    F: Pipeline2<Marker, M1, M2>,
;

impl<Marker, M1, M2, F> Stat2NS<Marker, M1, M2, F> where
    Marker: StatMarker,
    M1: Modifier,
    M2: Modifier,
    F: Pipeline2<Marker, M1, M2>,
 {
    /// Creates an exclusive-owner aggregator with no modifiers.
    pub fn new(base: Marker::Raw, f: F) -> (r: Self)
        ensures
            r.0.base_spec() == base,
            r.0.pipeline_spec() == f,
            r.0.m1_spec() == Seq::<M1>::empty(),
            r.0.m2_spec() == Seq::<M2>::empty(),
    {
        Stat2NS(Stat2::new(base, f))
    }

    /// Inserts a modifier into slot 1.
    pub fn apply_m1(&mut self, value: M1)
        ensures
            final(self).0.base_spec() == old(self).0.base_spec(),
            final(self).0.pipeline_spec() == old(self).0.pipeline_spec(),
            final(self).0.m2_spec() == old(self).0.m2_spec(),
            final(self).0.m1_spec() == old(self).0.m1_spec().push(value),
    {
        self.0.apply_m1(value);
    }

    /// Inserts a modifier into slot 2.
    pub fn apply_m2(&mut self, value: M2)
        ensures
            final(self).0.base_spec() == old(self).0.base_spec(),
            final(self).0.pipeline_spec() == old(self).0.pipeline_spec(),
            final(self).0.m1_spec() == old(self).0.m1_spec(),
            final(self).0.m2_spec() == old(self).0.m2_spec().push(value),
    {
        self.0.apply_m2(value);
    }

    /// Removes one occurrence equal to `value` from slot 1; a no-op if
    /// no equal modifier is stored.
    pub fn remove_m1(&mut self, value: M1)
        ensures
            final(self).0.base_spec() == old(self).0.base_spec(),
            final(self).0.pipeline_spec() == old(self).0.pipeline_spec(),
            final(self).0.m2_spec() == old(self).0.m2_spec(),
            old(self).0.m1_spec().contains(value)
                ==> final(self).0.m1_spec().to_multiset()
                == old(self).0.m1_spec().to_multiset().remove(value),
            !old(self).0.m1_spec().contains(value)
                ==> final(self).0.m1_spec() == old(self).0.m1_spec(),
    {
        self.0.remove_m1(value);
    }

    /// Removes one occurrence equal to `value` from slot 2; a no-op if
    /// no equal modifier is stored.
    pub fn remove_m2(&mut self, value: M2)
        ensures
            final(self).0.base_spec() == old(self).0.base_spec(),
            final(self).0.pipeline_spec() == old(self).0.pipeline_spec(),
            final(self).0.m1_spec() == old(self).0.m1_spec(),
            old(self).0.m2_spec().contains(value)
                ==> final(self).0.m2_spec().to_multiset()
                == old(self).0.m2_spec().to_multiset().remove(value),
            !old(self).0.m2_spec().contains(value)
                ==> final(self).0.m2_spec() == old(self).0.m2_spec(),
    {
        self.0.remove_m2(value);
    }

    /// True if and only if a modifier equal to `value` is stored in slot
    /// 1.
    pub fn has_m1(&self, value: M1) -> (r: bool)
        ensures
            r == self.0.m1_spec().contains(value),
    {
        self.0.has_m1(value)
    }

    /// True if and only if a modifier equal to `value` is stored in slot
    /// 2.
    pub fn has_m2(&self, value: M2) -> (r: bool)
        ensures
            r == self.0.m2_spec().contains(value),
    {
        self.0.has_m2(value)
    }

    /// The immutable base value.
    pub fn base(&self) -> (r: Marker::Raw)
        ensures
            r == self.0.base_spec(),
    {
        self.0.base()
    }

    /// Recomputes the stat from the base and the current collections.
    pub fn get(&self) -> (r: Marker::Raw)
        ensures
            r == self.0.value_spec(),
    {
        self.0.get()
    }
}

/// The exclusive-owner counterpart of [`crate::stat::Stat3`]: an
/// aggregator over 3 modifier categories whose single owner applies and
/// removes modifiers through exclusive borrows.
pub struct Stat3NS<Marker, M1, M2, M3, F>(pub Stat3<Marker, M1, M2, M3, F>) where
    Marker: StatMarker,
    M1: Modifier,
    M2: Modifier,
    M3: Modifier,
    F: Pipeline3<Marker, M1, M2, M3>,
;

impl<Marker, M1, M2, M3, F> Stat3NS<Marker, M1, M2, M3, F> where
    Marker: StatMarker,
    M1: Modifier,
    M2: Modifier,
    M3: Modifier,
    F: Pipeline3<Marker, M1, M2, M3>,
 {
    /// Creates an exclusive-owner aggregator with no modifiers.
    pub fn new(base: Marker::Raw, f: F) -> (r: Self)
        ensures
            r.0.base_spec() == base,
            r.0.pipeline_spec() == f,
            r.0.m1_spec() == Seq::<M1>::empty(),
            r.0.m2_spec() == Seq::<M2>::empty(),
            r.0.m3_spec() == Seq::<M3>::empty(),
    {
        Stat3NS(Stat3::new(base, f))
    }

    /// Inserts a modifier into slot 1.
    pub fn apply_m1(&mut self, value: M1)
        ensures
            final(self).0.base_spec() == old(self).0.base_spec(),
            final(self).0.pipeline_spec() == old(self).0.pipeline_spec(),
            final(self).0.m2_spec() == old(self).0.m2_spec(),
            final(self).0.m3_spec() == old(self).0.m3_spec(),
            final(self).0.m1_spec() == old(self).0.m1_spec().push(value),
    {
        self.0.apply_m1(value);
    }

    /// Inserts a modifier into slot 2.
    pub fn apply_m2(&mut self, value: M2)
        ensures
            final(self).0.base_spec() == old(self).0.base_spec(),
            final(self).0.pipeline_spec() == old(self).0.pipeline_spec(),
            final(self).0.m1_spec() == old(self).0.m1_spec(),
            final(self).0.m3_spec() == old(self).0.m3_spec(),
            final(self).0.m2_spec() == old(self).0.m2_spec().push(value),
    {
        self.0.apply_m2(value);
    }

    /// Inserts a modifier into slot 3.
    pub fn apply_m3(&mut self, value: M3)
        ensures
            final(self).0.base_spec() == old(self).0.base_spec(),
            final(self).0.pipeline_spec() == old(self).0.pipeline_spec(),
            final(self).0.m1_spec() == old(self).0.m1_spec(),
            final(self).0.m2_spec() == old(self).0.m2_spec(),
            final(self).0.m3_spec() == old(self).0.m3_spec().push(value),
    {
        self.0.apply_m3(value);
    }

    /// Removes one occurrence equal to `value` from slot 1; a no-op if
    /// no equal modifier is stored.
    pub fn remove_m1(&mut self, value: M1)
        ensures
            final(self).0.base_spec() == old(self).0.base_spec(),
            final(self).0.pipeline_spec() == old(self).0.pipeline_spec(),
            final(self).0.m2_spec() == old(self).0.m2_spec(),
            final(self).0.m3_spec() == old(self).0.m3_spec(),
            old(self).0.m1_spec().contains(value)
                ==> final(self).0.m1_spec().to_multiset()
                == old(self).0.m1_spec().to_multiset().remove(value),
            !old(self).0.m1_spec().contains(value)
                ==> final(self).0.m1_spec() == old(self).0.m1_spec(),
    {
        self.0.remove_m1(value);
    }

    /// Removes one occurrence equal to `value` from slot 2; a no-op if
    /// no equal modifier is stored.
    pub fn remove_m2(&mut self, value: M2)
        ensures
            final(self).0.base_spec() == old(self).0.base_spec(),
            final(self).0.pipeline_spec() == old(self).0.pipeline_spec(),
            final(self).0.m1_spec() == old(self).0.m1_spec(),
            final(self).0.m3_spec() == old(self).0.m3_spec(),
            old(self).0.m2_spec().contains(value)
                ==> final(self).0.m2_spec().to_multiset()
                == old(self).0.m2_spec().to_multiset().remove(value),
            !old(self).0.m2_spec().contains(value)
                ==> final(self).0.m2_spec() == old(self).0.m2_spec(),
    {
        self.0.remove_m2(value);
    }

    /// Removes one occurrence equal to `value` from slot 3; a no-op if
    /// no equal modifier is stored.
    pub fn remove_m3(&mut self, value: M3)
        ensures
            final(self).0.base_spec() == old(self).0.base_spec(),
            final(self).0.pipeline_spec() == old(self).0.pipeline_spec(),
            final(self).0.m1_spec() == old(self).0.m1_spec(),
            final(self).0.m2_spec() == old(self).0.m2_spec(),
            old(self).0.m3_spec().contains(value)
                ==> final(self).0.m3_spec().to_multiset()
                == old(self).0.m3_spec().to_multiset().remove(value),
            !old(self).0.m3_spec().contains(value)
                ==> final(self).0.m3_spec() == old(self).0.m3_spec(),
    {
        self.0.remove_m3(value);
    }

    /// True if and only if a modifier equal to `value` is stored in slot
    /// 1.
    pub fn has_m1(&self, value: M1) -> (r: bool)
        ensures
            r == self.0.m1_spec().contains(value),
    {
        self.0.has_m1(value)
    }

    /// True if and only if a modifier equal to `value` is stored in slot
    /// 2.
    pub fn has_m2(&self, value: M2) -> (r: bool)
        ensures
            r == self.0.m2_spec().contains(value),
    {
        self.0.has_m2(value)
    }

    /// True if and only if a modifier equal to `value` is stored in slot
    /// 3.
    pub fn has_m3(&self, value: M3) -> (r: bool)
        ensures
            r == self.0.m3_spec().contains(value),
    {
        self.0.has_m3(value)
    }

    /// The immutable base value.
    pub fn base(&self) -> (r: Marker::Raw)
        ensures
            r == self.0.base_spec(),
    {
        self.0.base()
    }

    /// Recomputes the stat from the base and the current collections.
    pub fn get(&self) -> (r: Marker::Raw)
        ensures
            r == self.0.value_spec(),
    {
        self.0.get()
    }
}

/// The exclusive-owner counterpart of [`crate::stat::Stat4`]: an
/// aggregator over 4 modifier categories whose single owner applies and
/// removes modifiers through exclusive borrows.
pub struct Stat4NS<Marker, M1, M2, M3, M4, F>(pub Stat4<Marker, M1, M2, M3, M4, F>) where
    Marker: StatMarker,
    M1: Modifier,
    M2: Modifier,
    M3: Modifier,
    M4: Modifier,
    F: Pipeline4<Marker, M1, M2, M3, M4>,
;

impl<Marker, M1, M2, M3, M4, F> Stat4NS<Marker, M1, M2, M3, M4, F> where
    Marker: StatMarker,
    M1: Modifier,
    M2: Modifier,
    M3: Modifier,
    M4: Modifier,
    F: Pipeline4<Marker, M1, M2, M3, M4>,
 {
    /// Creates an exclusive-owner aggregator with no modifiers.
    pub fn new(base: Marker::Raw, f: F) -> (r: Self)
        ensures
            r.0.base_spec() == base,
            r.0.pipeline_spec() == f,
            r.0.m1_spec() == Seq::<M1>::empty(),
            r.0.m2_spec() == Seq::<M2>::empty(),
            r.0.m3_spec() == Seq::<M3>::empty(),
            r.0.m4_spec() == Seq::<M4>::empty(),
    {
        Stat4NS(Stat4::new(base, f))
    }

    /// Inserts a modifier into slot 1.
    pub fn apply_m1(&mut self, value: M1)
        ensures
            final(self).0.base_spec() == old(self).0.base_spec(),
            final(self).0.pipeline_spec() == old(self).0.pipeline_spec(),
            final(self).0.m2_spec() == old(self).0.m2_spec(),
            final(self).0.m3_spec() == old(self).0.m3_spec(),
            final(self).0.m4_spec() == old(self).0.m4_spec(),
            final(self).0.m1_spec() == old(self).0.m1_spec().push(value),
    {
        self.0.apply_m1(value);
    }

    /// Inserts a modifier into slot 2.
    pub fn apply_m2(&mut self, value: M2)
        ensures
            final(self).0.base_spec() == old(self).0.base_spec(),
            final(self).0.pipeline_spec() == old(self).0.pipeline_spec(),
            final(self).0.m1_spec() == old(self).0.m1_spec(),
            final(self).0.m3_spec() == old(self).0.m3_spec(),
            final(self).0.m4_spec() == old(self).0.m4_spec(),
            final(self).0.m2_spec() == old(self).0.m2_spec().push(value),
    {
        self.0.apply_m2(value);
    }

    /// Inserts a modifier into slot 3.
    pub fn apply_m3(&mut self, value: M3)
        ensures
            final(self).0.base_spec() == old(self).0.base_spec(),
            final(self).0.pipeline_spec() == old(self).0.pipeline_spec(),
            final(self).0.m1_spec() == old(self).0.m1_spec(),
            final(self).0.m2_spec() == old(self).0.m2_spec(),
            final(self).0.m4_spec() == old(self).0.m4_spec(),
            final(self).0.m3_spec() == old(self).0.m3_spec().push(value),
    {
        self.0.apply_m3(value);
    }

    /// Inserts a modifier into slot 4.
    pub fn apply_m4(&mut self, value: M4)
        ensures
            final(self).0.base_spec() == old(self).0.base_spec(),
            final(self).0.pipeline_spec() == old(self).0.pipeline_spec(),
            final(self).0.m1_spec() == old(self).0.m1_spec(),
            final(self).0.m2_spec() == old(self).0.m2_spec(),
            final(self).0.m3_spec() == old(self).0.m3_spec(),
            final(self).0.m4_spec() == old(self).0.m4_spec().push(value),
    {
        self.0.apply_m4(value);
    }

    /// Removes one occurrence equal to `value` from slot 1; a no-op if
    /// no equal modifier is stored.
    pub fn remove_m1(&mut self, value: M1)
        ensures
            final(self).0.base_spec() == old(self).0.base_spec(),
            final(self).0.pipeline_spec() == old(self).0.pipeline_spec(),
            final(self).0.m2_spec() == old(self).0.m2_spec(),
            final(self).0.m3_spec() == old(self).0.m3_spec(),
            final(self).0.m4_spec() == old(self).0.m4_spec(),
            old(self).0.m1_spec().contains(value)
                ==> final(self).0.m1_spec().to_multiset()
                == old(self).0.m1_spec().to_multiset().remove(value),
            !old(self).0.m1_spec().contains(value)
                ==> final(self).0.m1_spec() == old(self).0.m1_spec(),
    {
        self.0.remove_m1(value);
    }

    /// Removes one occurrence equal to `value` from slot 2; a no-op if
    /// no equal modifier is stored.
    pub fn remove_m2(&mut self, value: M2)
        ensures
            final(self).0.base_spec() == old(self).0.base_spec(),
            final(self).0.pipeline_spec() == old(self).0.pipeline_spec(),
            final(self).0.m1_spec() == old(self).0.m1_spec(),
            final(self).0.m3_spec() == old(self).0.m3_spec(),
            final(self).0.m4_spec() == old(self).0.m4_spec(),
            old(self).0.m2_spec().contains(value)
                ==> final(self).0.m2_spec().to_multiset()
                == old(self).0.m2_spec().to_multiset().remove(value),
            !old(self).0.m2_spec().contains(value)
                ==> final(self).0.m2_spec() == old(self).0.m2_spec(),
    {
        self.0.remove_m2(value);
    }

    /// Removes one occurrence equal to `value` from slot 3; a no-op if
    /// no equal modifier is stored.
    pub fn remove_m3(&mut self, value: M3)
        ensures
            final(self).0.base_spec() == old(self).0.base_spec(),
            final(self).0.pipeline_spec() == old(self).0.pipeline_spec(),
            final(self).0.m1_spec() == old(self).0.m1_spec(),
            final(self).0.m2_spec() == old(self).0.m2_spec(),
            final(self).0.m4_spec() == old(self).0.m4_spec(),
            old(self).0.m3_spec().contains(value)
                ==> final(self).0.m3_spec().to_multiset()
                == old(self).0.m3_spec().to_multiset().remove(value),
            !old(self).0.m3_spec().contains(value)
                ==> final(self).0.m3_spec() == old(self).0.m3_spec(),
    {
        self.0.remove_m3(value);
    }

    /// Removes one occurrence equal to `value` from slot 4; a no-op if
    /// no equal modifier is stored.
    pub fn remove_m4(&mut self, value: M4)
        ensures
            final(self).0.base_spec() == old(self).0.base_spec(),
            final(self).0.pipeline_spec() == old(self).0.pipeline_spec(),
            final(self).0.m1_spec() == old(self).0.m1_spec(),
            final(self).0.m2_spec() == old(self).0.m2_spec(),
            final(self).0.m3_spec() == old(self).0.m3_spec(),
            old(self).0.m4_spec().contains(value)
                ==> final(self).0.m4_spec().to_multiset()
                == old(self).0.m4_spec().to_multiset().remove(value),
            !old(self).0.m4_spec().contains(value)
                ==> final(self).0.m4_spec() == old(self).0.m4_spec(),
    {
        self.0.remove_m4(value);
    }

    /// True if and only if a modifier equal to `value` is stored in slot
    /// 1.
    pub fn has_m1(&self, value: M1) -> (r: bool)
        ensures
            r == self.0.m1_spec().contains(value),
    {
        self.0.has_m1(value)
    }

    /// True if and only if a modifier equal to `value` is stored in slot
    /// 2.
    pub fn has_m2(&self, value: M2) -> (r: bool)
        ensures
            r == self.0.m2_spec().contains(value),
    {
        self.0.has_m2(value)
    }

    /// True if and only if a modifier equal to `value` is stored in slot
    /// 3.
    pub fn has_m3(&self, value: M3) -> (r: bool)
        ensures
            r == self.0.m3_spec().contains(value),
    {
        self.0.has_m3(value)
    }

    /// True if and only if a modifier equal to `value` is stored in slot
    /// 4.
    pub fn has_m4(&self, value: M4) -> (r: bool)
        ensures
            r == self.0.m4_spec().contains(value),
    {
        self.0.has_m4(value)
    }

    /// The immutable base value.
    pub fn base(&self) -> (r: Marker::Raw)
        ensures
            r == self.0.base_spec(),
    {
        self.0.base()
    }

    /// Recomputes the stat from the base and the current collections.
    pub fn get(&self) -> (r: Marker::Raw)
        ensures
            r == self.0.value_spec(),
    {
        self.0.get()
    }
}

/// The exclusive-owner counterpart of [`crate::stat::Stat5`]: an
/// aggregator over 5 modifier categories whose single owner applies and
/// removes modifiers through exclusive borrows.
pub struct Stat5NS<Marker, M1, M2, M3, M4, M5, F>(pub Stat5<Marker, M1, M2, M3, M4, M5, F>) where
    Marker: StatMarker,
    M1: Modifier,
    M2: Modifier,
    M3: Modifier,
    M4: Modifier,
    M5: Modifier,
    F: Pipeline5<Marker, M1, M2, M3, M4, M5>,
;

impl<Marker, M1, M2, M3, M4, M5, F> Stat5NS<Marker, M1, M2, M3, M4, M5, F> where
    Marker: StatMarker,
    M1: Modifier,
    M2: Modifier,
    M3: Modifier,
    M4: Modifier,
    M5: Modifier,
    F: Pipeline5<Marker, M1, M2, M3, M4, M5>,
 {
    /// Creates an exclusive-owner aggregator with no modifiers.
    pub fn new(base: Marker::Raw, f: F) -> (r: Self)
        ensures
            r.0.base_spec() == base,
            r.0.pipeline_spec() == f,
            r.0.m1_spec() == Seq::<M1>::empty(),
            r.0.m2_spec() == Seq::<M2>::empty(),
            r.0.m3_spec() == Seq::<M3>::empty(),
            r.0.m4_spec() == Seq::<M4>::empty(),
            r.0.m5_spec() == Seq::<M5>::empty(),
    {
        Stat5NS(Stat5::new(base, f))
    }

    /// Inserts a modifier into slot 1.
    pub fn apply_m1(&mut self, value: M1)
        ensures
            final(self).0.base_spec() == old(self).0.base_spec(),
            final(self).0.pipeline_spec() == old(self).0.pipeline_spec(),
            final(self).0.m2_spec() == old(self).0.m2_spec(),
            final(self).0.m3_spec() == old(self).0.m3_spec(),
            final(self).0.m4_spec() == old(self).0.m4_spec(),
            final(self).0.m5_spec() == old(self).0.m5_spec(),
            final(self).0.m1_spec() == old(self).0.m1_spec().push(value),
    {
        self.0.apply_m1(value);
    }

    /// Inserts a modifier into slot 2.
    pub fn apply_m2(&mut self, value: M2)
        ensures
            final(self).0.base_spec() == old(self).0.base_spec(),
            final(self).0.pipeline_spec() == old(self).0.pipeline_spec(),
            final(self).0.m1_spec() == old(self).0.m1_spec(),
            final(self).0.m3_spec() == old(self).0.m3_spec(),
            final(self).0.m4_spec() == old(self).0.m4_spec(),
            final(self).0.m5_spec() == old(self).0.m5_spec(),
            final(self).0.m2_spec() == old(self).0.m2_spec().push(value),
    {
        self.0.apply_m2(value);
    }

    /// Inserts a modifier into slot 3.
    pub fn apply_m3(&mut self, value: M3)
        ensures
            final(self).0.base_spec() == old(self).0.base_spec(),
            final(self).0.pipeline_spec() == old(self).0.pipeline_spec(),
            final(self).0.m1_spec() == old(self).0.m1_spec(),
            final(self).0.m2_spec() == old(self).0.m2_spec(),
            final(self).0.m4_spec() == old(self).0.m4_spec(),
            final(self).0.m5_spec() == old(self).0.m5_spec(),
            final(self).0.m3_spec() == old(self).0.m3_spec().push(value),
    {
        self.0.apply_m3(value);
    }

    /// Inserts a modifier into slot 4.
    pub fn apply_m4(&mut self, value: M4)
        ensures
            final(self).0.base_spec() == old(self).0.base_spec(),
            final(self).0.pipeline_spec() == old(self).0.pipeline_spec(),
            final(self).0.m1_spec() == old(self).0.m1_spec(),
            final(self).0.m2_spec() == old(self).0.m2_spec(),
            final(self).0.m3_spec() == old(self).0.m3_spec(),
            final(self).0.m5_spec() == old(self).0.m5_spec(),
            final(self).0.m4_spec() == old(self).0.m4_spec().push(value),
    {
        self.0.apply_m4(value);
    }

    /// Inserts a modifier into slot 5.
    pub fn apply_m5(&mut self, value: M5)
        ensures
            final(self).0.base_spec() == old(self).0.base_spec(),
            final(self).0.pipeline_spec() == old(self).0.pipeline_spec(),
            final(self).0.m1_spec() == old(self).0.m1_spec(),
            final(self).0.m2_spec() == old(self).0.m2_spec(),
            final(self).0.m3_spec() == old(self).0.m3_spec(),
            final(self).0.m4_spec() == old(self).0.m4_spec(),
            final(self).0.m5_spec() == old(self).0.m5_spec().push(value),
    {
        self.0.apply_m5(value);
    }

    /// Removes one occurrence equal to `value` from slot 1; a no-op if
    /// no equal modifier is stored.
    pub fn remove_m1(&mut self, value: M1)
        ensures
            final(self).0.base_spec() == old(self).0.base_spec(),
            final(self).0.pipeline_spec() == old(self).0.pipeline_spec(),
            final(self).0.m2_spec() == old(self).0.m2_spec(),
            final(self).0.m3_spec() == old(self).0.m3_spec(),
            final(self).0.m4_spec() == old(self).0.m4_spec(),
            final(self).0.m5_spec() == old(self).0.m5_spec(),
            old(self).0.m1_spec().contains(value)
                ==> final(self).0.m1_spec().to_multiset()
                == old(self).0.m1_spec().to_multiset().remove(value),
            !old(self).0.m1_spec().contains(value)
                ==> final(self).0.m1_spec() == old(self).0.m1_spec(),
    {
        self.0.remove_m1(value);
    }

    /// Removes one occurrence equal to `value` from slot 2; a no-op if
    /// no equal modifier is stored.
    pub fn remove_m2(&mut self, value: M2)
        ensures
            final(self).0.base_spec() == old(self).0.base_spec(),
            final(self).0.pipeline_spec() == old(self).0.pipeline_spec(),
            final(self).0.m1_spec() == old(self).0.m1_spec(),
            final(self).0.m3_spec() == old(self).0.m3_spec(),
            final(self).0.m4_spec() == old(self).0.m4_spec(),
            final(self).0.m5_spec() == old(self).0.m5_spec(),
            old(self).0.m2_spec().contains(value)
                ==> final(self).0.m2_spec().to_multiset()
                == old(self).0.m2_spec().to_multiset().remove(value),
            !old(self).0.m2_spec().contains(value)
                ==> final(self).0.m2_spec() == old(self).0.m2_spec(),
    {
        self.0.remove_m2(value);
    }

    /// Removes one occurrence equal to `value` from slot 3; a no-op if
    /// no equal modifier is stored.
    pub fn remove_m3(&mut self, value: M3)
        ensures
            final(self).0.base_spec() == old(self).0.base_spec(),
            final(self).0.pipeline_spec() == old(self).0.pipeline_spec(),
            final(self).0.m1_spec() == old(self).0.m1_spec(),
            final(self).0.m2_spec() == old(self).0.m2_spec(),
            final(self).0.m4_spec() == old(self).0.m4_spec(),
            final(self).0.m5_spec() == old(self).0.m5_spec(),
            old(self).0.m3_spec().contains(value)
                ==> final(self).0.m3_spec().to_multiset()
                == old(self).0.m3_spec().to_multiset().remove(value),
            !old(self).0.m3_spec().contains(value)
                ==> final(self).0.m3_spec() == old(self).0.m3_spec(),
    {
        self.0.remove_m3(value);
    }

    /// Removes one occurrence equal to `value` from slot 4; a no-op if
    /// no equal modifier is stored.
    pub fn remove_m4(&mut self, value: M4)
        ensures
            final(self).0.base_spec() == old(self).0.base_spec(),
            final(self).0.pipeline_spec() == old(self).0.pipeline_spec(),
            final(self).0.m1_spec() == old(self).0.m1_spec(),
            final(self).0.m2_spec() == old(self).0.m2_spec(),
            final(self).0.m3_spec() == old(self).0.m3_spec(),
            final(self).0.m5_spec() == old(self).0.m5_spec(),
            old(self).0.m4_spec().contains(value)
                ==> final(self).0.m4_spec().to_multiset()
                == old(self).0.m4_spec().to_multiset().remove(value),
            !old(self).0.m4_spec().contains(value)
                ==> final(self).0.m4_spec() == old(self).0.m4_spec(),
    {
        self.0.remove_m4(value);
    }

    /// Removes one occurrence equal to `value` from slot 5; a no-op if
    /// no equal modifier is stored.
    pub fn remove_m5(&mut self, value: M5)
        ensures
            final(self).0.base_spec() == old(self).0.base_spec(),
            final(self).0.pipeline_spec() == old(self).0.pipeline_spec(),
            final(self).0.m1_spec() == old(self).0.m1_spec(),
            final(self).0.m2_spec() == old(self).0.m2_spec(),
            final(self).0.m3_spec() == old(self).0.m3_spec(),
            final(self).0.m4_spec() == old(self).0.m4_spec(),
            old(self).0.m5_spec().contains(value)
                ==> final(self).0.m5_spec().to_multiset()
                == old(self).0.m5_spec().to_multiset().remove(value),
            !old(self).0.m5_spec().contains(value)
                ==> final(self).0.m5_spec() == old(self).0.m5_spec(),
    {
        self.0.remove_m5(value);
    }

    /// True if and only if a modifier equal to `value` is stored in slot
    /// 1.
    pub fn has_m1(&self, value: M1) -> (r: bool)
        ensures
            r == self.0.m1_spec().contains(value),
    {
        self.0.has_m1(value)
    }

    /// True if and only if a modifier equal to `value` is stored in slot
    /// 2.
    pub fn has_m2(&self, value: M2) -> (r: bool)
        ensures
            r == self.0.m2_spec().contains(value),
    {
        self.0.has_m2(value)
    }

    /// True if and only if a modifier equal to `value` is stored in slot
    /// 3.
    pub fn has_m3(&self, value: M3) -> (r: bool)
        ensures
            r == self.0.m3_spec().contains(value),
    {
        self.0.has_m3(value)
    }

    /// True if and only if a modifier equal to `value` is stored in slot
    /// 4.
    pub fn has_m4(&self, value: M4) -> (r: bool)
        ensures
            r == self.0.m4_spec().contains(value),
    {
        self.0.has_m4(value)
    }

    /// True if and only if a modifier equal to `value` is stored in slot
    /// 5.
    pub fn has_m5(&self, value: M5) -> (r: bool)
        ensures
            r == self.0.m5_spec().contains(value),
    {
        self.0.has_m5(value)
    }

    /// The immutable base value.
    pub fn base(&self) -> (r: Marker::Raw)
        ensures
            r == self.0.base_spec(),
    {
        self.0.base()
    }

    /// Recomputes the stat from the base and the current collections.
    pub fn get(&self) -> (r: Marker::Raw)
        ensures
            r == self.0.value_spec(),
    {
        self.0.get()
    }
}

/// The exclusive-owner counterpart of [`crate::stat::Stat6`]: an
/// aggregator over 6 modifier categories whose single owner applies and
/// removes modifiers through exclusive borrows.
pub struct Stat6NS<Marker, M1, M2, M3, M4, M5, M6, F>(pub Stat6<Marker, M1, M2, M3, M4, M5, M6, F>) where
    Marker: StatMarker,
    M1: Modifier,
    M2: Modifier,
    M3: Modifier,
    M4: Modifier,
    M5: Modifier,
    M6: Modifier,
    F: Pipeline6<Marker, M1, M2, M3, M4, M5, M6>,
;

impl<Marker, M1, M2, M3, M4, M5, M6, F> Stat6NS<Marker, M1, M2, M3, M4, M5, M6, F> where
    Marker: StatMarker,
    M1: Modifier,
    M2: Modifier,
    M3: Modifier,
    M4: Modifier,
    M5: Modifier,
    M6: Modifier,
    F: Pipeline6<Marker, M1, M2, M3, M4, M5, M6>,
 {
    /// Creates an exclusive-owner aggregator with no modifiers.
    pub fn new(base: Marker::Raw, f: F) -> (r: Self)
        ensures
            r.0.base_spec() == base,
            r.0.pipeline_spec() == f,
            r.0.m1_spec() == Seq::<M1>::empty(),
            r.0.m2_spec() == Seq::<M2>::empty(),
            r.0.m3_spec() == Seq::<M3>::empty(),
            r.0.m4_spec() == Seq::<M4>::empty(),
            r.0.m5_spec() == Seq::<M5>::empty(),
            r.0.m6_spec() == Seq::<M6>::empty(),
    {
        Stat6NS(Stat6::new(base, f))
    }

    /// Inserts a modifier into slot 1.
    pub fn apply_m1(&mut self, value: M1)
        ensures
            final(self).0.base_spec() == old(self).0.base_spec(),
            final(self).0.pipeline_spec() == old(self).0.pipeline_spec(),
            final(self).0.m2_spec() == old(self).0.m2_spec(),
            final(self).0.m3_spec() == old(self).0.m3_spec(),
            final(self).0.m4_spec() == old(self).0.m4_spec(),
            final(self).0.m5_spec() == old(self).0.m5_spec(),
            final(self).0.m6_spec() == old(self).0.m6_spec(),
            final(self).0.m1_spec() == old(self).0.m1_spec().push(value),
    {
        self.0.apply_m1(value);
    }

    /// Inserts a modifier into slot 2.
    pub fn apply_m2(&mut self, value: M2)
        ensures
            final(self).0.base_spec() == old(self).0.base_spec(),
            final(self).0.pipeline_spec() == old(self).0.pipeline_spec(),
            final(self).0.m1_spec() == old(self).0.m1_spec(),
            final(self).0.m3_spec() == old(self).0.m3_spec(),
            final(self).0.m4_spec() == old(self).0.m4_spec(),
            final(self).0.m5_spec() == old(self).0.m5_spec(),
            final(self).0.m6_spec() == old(self).0.m6_spec(),
            final(self).0.m2_spec() == old(self).0.m2_spec().push(value),
    {
        self.0.apply_m2(value);
    }

    /// Inserts a modifier into slot 3.
    pub fn apply_m3(&mut self, value: M3)
        ensures
            final(self).0.base_spec() == old(self).0.base_spec(),
            final(self).0.pipeline_spec() == old(self).0.pipeline_spec(),
            final(self).0.m1_spec() == old(self).0.m1_spec(),
            final(self).0.m2_spec() == old(self).0.m2_spec(),
            final(self).0.m4_spec() == old(self).0.m4_spec(),
            final(self).0.m5_spec() == old(self).0.m5_spec(),
            final(self).0.m6_spec() == old(self).0.m6_spec(),
            final(self).0.m3_spec() == old(self).0.m3_spec().push(value),
    {
        self.0.apply_m3(value);
    }

    /// Inserts a modifier into slot 4.
    pub fn apply_m4(&mut self, value: M4)
        ensures
            final(self).0.base_spec() == old(self).0.base_spec(),
            final(self).0.pipeline_spec() == old(self).0.pipeline_spec(),
            final(self).0.m1_spec() == old(self).0.m1_spec(),
            final(self).0.m2_spec() == old(self).0.m2_spec(),
            final(self).0.m3_spec() == old(self).0.m3_spec(),
            final(self).0.m5_spec() == old(self).0.m5_spec(),
            final(self).0.m6_spec() == old(self).0.m6_spec(),
            final(self).0.m4_spec() == old(self).0.m4_spec().push(value),
    {
        self.0.apply_m4(value);
    }

    /// Inserts a modifier into slot 5.
    pub fn apply_m5(&mut self, value: M5)
        ensures
            final(self).0.base_spec() == old(self).0.base_spec(),
            final(self).0.pipeline_spec() == old(self).0.pipeline_spec(),
            final(self).0.m1_spec() == old(self).0.m1_spec(),
            final(self).0.m2_spec() == old(self).0.m2_spec(),
            final(self).0.m3_spec() == old(self).0.m3_spec(),
            final(self).0.m4_spec() == old(self).0.m4_spec(),
            final(self).0.m6_spec() == old(self).0.m6_spec(),
            final(self).0.m5_spec() == old(self).0.m5_spec().push(value),
    {
        self.0.apply_m5(value);
    }

    /// Inserts a modifier into slot 6.
    pub fn apply_m6(&mut self, value: M6)
        ensures
            final(self).0.base_spec() == old(self).0.base_spec(),
            final(self).0.pipeline_spec() == old(self).0.pipeline_spec(),
            final(self).0.m1_spec() == old(self).0.m1_spec(),
            final(self).0.m2_spec() == old(self).0.m2_spec(),
            final(self).0.m3_spec() == old(self).0.m3_spec(),
            final(self).0.m4_spec() == old(self).0.m4_spec(),
            final(self).0.m5_spec() == old(self).0.m5_spec(),
            final(self).0.m6_spec() == old(self).0.m6_spec().push(value),
    {
        self.0.apply_m6(value);
    }

    /// Removes one occurrence equal to `value` from slot 1; a no-op if
    /// no equal modifier is stored.
    pub fn remove_m1(&mut self, value: M1)
        ensures
            final(self).0.base_spec() == old(self).0.base_spec(),
            final(self).0.pipeline_spec() == old(self).0.pipeline_spec(),
            final(self).0.m2_spec() == old(self).0.m2_spec(),
            final(self).0.m3_spec() == old(self).0.m3_spec(),
            final(self).0.m4_spec() == old(self).0.m4_spec(),
            final(self).0.m5_spec() == old(self).0.m5_spec(),
            final(self).0.m6_spec() == old(self).0.m6_spec(),
            old(self).0.m1_spec().contains(value)
                ==> final(self).0.m1_spec().to_multiset()
                == old(self).0.m1_spec().to_multiset().remove(value),
            !old(self).0.m1_spec().contains(value)
                ==> final(self).0.m1_spec() == old(self).0.m1_spec(),
    {
        self.0.remove_m1(value);
    }

    /// Removes one occurrence equal to `value` from slot 2; a no-op if
    /// no equal modifier is stored.
    pub fn remove_m2(&mut self, value: M2)
        ensures
            final(self).0.base_spec() == old(self).0.base_spec(),
            final(self).0.pipeline_spec() == old(self).0.pipeline_spec(),
            final(self).0.m1_spec() == old(self).0.m1_spec(),
            final(self).0.m3_spec() == old(self).0.m3_spec(),
            final(self).0.m4_spec() == old(self).0.m4_spec(),
            final(self).0.m5_spec() == old(self).0.m5_spec(),
            final(self).0.m6_spec() == old(self).0.m6_spec(),
            old(self).0.m2_spec().contains(value)
                ==> final(self).0.m2_spec().to_multiset()
                == old(self).0.m2_spec().to_multiset().remove(value),
            !old(self).0.m2_spec().contains(value)
                ==> final(self).0.m2_spec() == old(self).0.m2_spec(),
    {
        self.0.remove_m2(value);
    }

    /// Removes one occurrence equal to `value` from slot 3; a no-op if
    /// no equal modifier is stored.
    pub fn remove_m3(&mut self, value: M3)
        ensures
            final(self).0.base_spec() == old(self).0.base_spec(),
            final(self).0.pipeline_spec() == old(self).0.pipeline_spec(),
            final(self).0.m1_spec() == old(self).0.m1_spec(),
            final(self).0.m2_spec() == old(self).0.m2_spec(),
            final(self).0.m4_spec() == old(self).0.m4_spec(),
            final(self).0.m5_spec() == old(self).0.m5_spec(),
            final(self).0.m6_spec() == old(self).0.m6_spec(),
            old(self).0.m3_spec().contains(value)
                ==> final(self).0.m3_spec().to_multiset()
                == old(self).0.m3_spec().to_multiset().remove(value),
            !old(self).0.m3_spec().contains(value)
                ==> final(self).0.m3_spec() == old(self).0.m3_spec(),
    {
        self.0.remove_m3(value);
    }

    /// Removes one occurrence equal to `value` from slot 4; a no-op if
    /// no equal modifier is stored.
    pub fn remove_m4(&mut self, value: M4)
        ensures
            final(self).0.base_spec() == old(self).0.base_spec(),
            final(self).0.pipeline_spec() == old(self).0.pipeline_spec(),
            final(self).0.m1_spec() == old(self).0.m1_spec(),
            final(self).0.m2_spec() == old(self).0.m2_spec(),
            final(self).0.m3_spec() == old(self).0.m3_spec(),
            final(self).0.m5_spec() == old(self).0.m5_spec(),
            final(self).0.m6_spec() == old(self).0.m6_spec(),
            old(self).0.m4_spec().contains(value)
                ==> final(self).0.m4_spec().to_multiset()
                == old(self).0.m4_spec().to_multiset().remove(value),
            !old(self).0.m4_spec().contains(value)
                ==> final(self).0.m4_spec() == old(self).0.m4_spec(),
    {
        self.0.remove_m4(value);
    }

    /// Removes one occurrence equal to `value` from slot 5; a no-op if
    /// no equal modifier is stored.
    pub fn remove_m5(&mut self, value: M5)
        ensures
            final(self).0.base_spec() == old(self).0.base_spec(),
            final(self).0.pipeline_spec() == old(self).0.pipeline_spec(),
            final(self).0.m1_spec() == old(self).0.m1_spec(),
            final(self).0.m2_spec() == old(self).0.m2_spec(),
            final(self).0.m3_spec() == old(self).0.m3_spec(),
            final(self).0.m4_spec() == old(self).0.m4_spec(),
            final(self).0.m6_spec() == old(self).0.m6_spec(),
            old(self).0.m5_spec().contains(value)
                ==> final(self).0.m5_spec().to_multiset()
                == old(self).0.m5_spec().to_multiset().remove(value),
            !old(self).0.m5_spec().contains(value)
                ==> final(self).0.m5_spec() == old(self).0.m5_spec(),
    {
        self.0.remove_m5(value);
    }

    /// Removes one occurrence equal to `value` from slot 6; a no-op if
    /// no equal modifier is stored.
    pub fn remove_m6(&mut self, value: M6)
        ensures
            final(self).0.base_spec() == old(self).0.base_spec(),
            final(self).0.pipeline_spec() == old(self).0.pipeline_spec(),
            final(self).0.m1_spec() == old(self).0.m1_spec(),
            final(self).0.m2_spec() == old(self).0.m2_spec(),
            final(self).0.m3_spec() == old(self).0.m3_spec(),
            final(self).0.m4_spec() == old(self).0.m4_spec(),
            final(self).0.m5_spec() == old(self).0.m5_spec(),
            old(self).0.m6_spec().contains(value)
                ==> final(self).0.m6_spec().to_multiset()
                == old(self).0.m6_spec().to_multiset().remove(value),
            !old(self).0.m6_spec().contains(value)
                ==> final(self).0.m6_spec() == old(self).0.m6_spec(),
    {
        self.0.remove_m6(value);
    }

    /// True if and only if a modifier equal to `value` is stored in slot
    /// 1.
    pub fn has_m1(&self, value: M1) -> (r: bool)
        ensures
            r == self.0.m1_spec().contains(value),
    {
        self.0.has_m1(value)
    }

    /// True if and only if a modifier equal to `value` is stored in slot
    /// 2.
    pub fn has_m2(&self, value: M2) -> (r: bool)
        ensures
            r == self.0.m2_spec().contains(value),
    {
        self.0.has_m2(value)
    }

    /// True if and only if a modifier equal to `value` is stored in slot
    /// 3.
    pub fn has_m3(&self, value: M3) -> (r: bool)
        ensures
            r == self.0.m3_spec().contains(value),
    {
        self.0.has_m3(value)
    }

    /// True if and only if a modifier equal to `value` is stored in slot
    /// 4.
    pub fn has_m4(&self, value: M4) -> (r: bool)
        ensures
            r == self.0.m4_spec().contains(value),
    {
        self.0.has_m4(value)
    }

    /// True if and only if a modifier equal to `value` is stored in slot
    /// 5.
    pub fn has_m5(&self, value: M5) -> (r: bool)
        ensures
            r == self.0.m5_spec().contains(value),
    {
        self.0.has_m5(value)
    }

    /// True if and only if a modifier equal to `value` is stored in slot
    /// 6.
    pub fn has_m6(&self, value: M6) -> (r: bool)
        ensures
            r == self.0.m6_spec().contains(value),
    {
        self.0.has_m6(value)
    }

    /// The immutable base value.
    pub fn base(&self) -> (r: Marker::Raw)
        ensures
            r == self.0.base_spec(),
    {
        self.0.base()
    }

    /// Recomputes the stat from the base and the current collections.
    pub fn get(&self) -> (r: Marker::Raw)
        ensures
            r == self.0.value_spec(),
    {
        self.0.get()
    }
}

/// The exclusive-owner counterpart of [`crate::stat::Stat7`]: an
/// aggregator over 7 modifier categories whose single owner applies and
/// removes modifiers through exclusive borrows.
pub struct Stat7NS<Marker, M1, M2, M3, M4, M5, M6, M7, F>(pub Stat7<Marker, M1, M2, M3, M4, M5, M6, M7, F>) where
    Marker: StatMarker,
    M1: Modifier,
    M2: Modifier,
    M3: Modifier,
    M4: Modifier,
    M5: Modifier,
    M6: Modifier,
    M7: Modifier,
    F: Pipeline7<Marker, M1, M2, M3, M4, M5, M6, M7>,
;

impl<Marker, M1, M2, M3, M4, M5, M6, M7, F> Stat7NS<Marker, M1, M2, M3, M4, M5, M6, M7, F> where
    Marker: StatMarker,
    M1: Modifier,
    M2: Modifier,
    M3: Modifier,
    M4: Modifier,
    M5: Modifier,
    M6: Modifier,
    M7: Modifier,
    F: Pipeline7<Marker, M1, M2, M3, M4, M5, M6, M7>,
 {
    /// Creates an exclusive-owner aggregator with no modifiers.
    pub fn new(base: Marker::Raw, f: F) -> (r: Self)
        ensures
            r.0.base_spec() == base,
            r.0.pipeline_spec() == f,
            r.0.m1_spec() == Seq::<M1>::empty(),
            r.0.m2_spec() == Seq::<M2>::empty(),
            r.0.m3_spec() == Seq::<M3>::empty(),
            r.0.m4_spec() == Seq::<M4>::empty(),
            r.0.m5_spec() == Seq::<M5>::empty(),
            r.0.m6_spec() == Seq::<M6>::empty(),
            r.0.m7_spec() == Seq::<M7>::empty(),
    {
        Stat7NS(Stat7::new(base, f))
    }

    /// Inserts a modifier into slot 1.
    pub fn apply_m1(&mut self, value: M1)
        ensures
            final(self).0.base_spec() == old(self).0.base_spec(),
            final(self).0.pipeline_spec() == old(self).0.pipeline_spec(),
            final(self).0.m2_spec() == old(self).0.m2_spec(),
            final(self).0.m3_spec() == old(self).0.m3_spec(),
            final(self).0.m4_spec() == old(self).0.m4_spec(),
            final(self).0.m5_spec() == old(self).0.m5_spec(),
            final(self).0.m6_spec() == old(self).0.m6_spec(),
            final(self).0.m7_spec() == old(self).0.m7_spec(),
            final(self).0.m1_spec() == old(self).0.m1_spec().push(value),
    {
        self.0.apply_m1(value);
    }

    /// Inserts a modifier into slot 2.
    pub fn apply_m2(&mut self, value: M2)
        ensures
            final(self).0.base_spec() == old(self).0.base_spec(),
            final(self).0.pipeline_spec() == old(self).0.pipeline_spec(),
            final(self).0.m1_spec() == old(self).0.m1_spec(),
            final(self).0.m3_spec() == old(self).0.m3_spec(),
            final(self).0.m4_spec() == old(self).0.m4_spec(),
            final(self).0.m5_spec() == old(self).0.m5_spec(),
            final(self).0.m6_spec() == old(self).0.m6_spec(),
            final(self).0.m7_spec() == old(self).0.m7_spec(),
            final(self).0.m2_spec() == old(self).0.m2_spec().push(value),
    {
        self.0.apply_m2(value);
    }

    /// Inserts a modifier into slot 3.
    pub fn apply_m3(&mut self, value: M3)
        ensures
            final(self).0.base_spec() == old(self).0.base_spec(),
            final(self).0.pipeline_spec() == old(self).0.pipeline_spec(),
            final(self).0.m1_spec() == old(self).0.m1_spec(),
            final(self).0.m2_spec() == old(self).0.m2_spec(),
            final(self).0.m4_spec() == old(self).0.m4_spec(),
            final(self).0.m5_spec() == old(self).0.m5_spec(),
            final(self).0.m6_spec() == old(self).0.m6_spec(),
            final(self).0.m7_spec() == old(self).0.m7_spec(),
            final(self).0.m3_spec() == old(self).0.m3_spec().push(value),
    {
        self.0.apply_m3(value);
    }

    /// Inserts a modifier into slot 4.
    pub fn apply_m4(&mut self, value: M4)
        ensures
            final(self).0.base_spec() == old(self).0.base_spec(),
            final(self).0.pipeline_spec() == old(self).0.pipeline_spec(),
            final(self).0.m1_spec() == old(self).0.m1_spec(),
            final(self).0.m2_spec() == old(self).0.m2_spec(),
            final(self).0.m3_spec() == old(self).0.m3_spec(),
            final(self).0.m5_spec() == old(self).0.m5_spec(),
            final(self).0.m6_spec() == old(self).0.m6_spec(),
            final(self).0.m7_spec() == old(self).0.m7_spec(),
            final(self).0.m4_spec() == old(self).0.m4_spec().push(value),
    {
        self.0.apply_m4(value);
    }

    /// Inserts a modifier into slot 5.
    pub fn apply_m5(&mut self, value: M5)
        ensures
            final(self).0.base_spec() == old(self).0.base_spec(),
            final(self).0.pipeline_spec() == old(self).0.pipeline_spec(),
            final(self).0.m1_spec() == old(self).0.m1_spec(),
            final(self).0.m2_spec() == old(self).0.m2_spec(),
            final(self).0.m3_spec() == old(self).0.m3_spec(),
            final(self).0.m4_spec() == old(self).0.m4_spec(),
            final(self).0.m6_spec() == old(self).0.m6_spec(),
            final(self).0.m7_spec() == old(self).0.m7_spec(),
            final(self).0.m5_spec() == old(self).0.m5_spec().push(value),
    {
        self.0.apply_m5(value);
    }

    /// Inserts a modifier into slot 6.
    pub fn apply_m6(&mut self, value: M6)
        ensures
            final(self).0.base_spec() == old(self).0.base_spec(),
            final(self).0.pipeline_spec() == old(self).0.pipeline_spec(),
            final(self).0.m1_spec() == old(self).0.m1_spec(),
            final(self).0.m2_spec() == old(self).0.m2_spec(),
            final(self).0.m3_spec() == old(self).0.m3_spec(),
            final(self).0.m4_spec() == old(self).0.m4_spec(),
            final(self).0.m5_spec() == old(self).0.m5_spec(),
            final(self).0.m7_spec() == old(self).0.m7_spec(),
            final(self).0.m6_spec() == old(self).0.m6_spec().push(value),
    {
        self.0.apply_m6(value);
    }

    /// Inserts a modifier into slot 7.
    pub fn apply_m7(&mut self, value: M7)
        ensures
            final(self).0.base_spec() == old(self).0.base_spec(),
            final(self).0.pipeline_spec() == old(self).0.pipeline_spec(),
            final(self).0.m1_spec() == old(self).0.m1_spec(),
            final(self).0.m2_spec() == old(self).0.m2_spec(),
            final(self).0.m3_spec() == old(self).0.m3_spec(),
            final(self).0.m4_spec() == old(self).0.m4_spec(),
            final(self).0.m5_spec() == old(self).0.m5_spec(),
            final(self).0.m6_spec() == old(self).0.m6_spec(),
            final(self).0.m7_spec() == old(self).0.m7_spec().push(value),
    {
        self.0.apply_m7(value);
    }

    /// Removes one occurrence equal to `value` from slot 1; a no-op if
    /// no equal modifier is stored.
    pub fn remove_m1(&mut self, value: M1)
        ensures
            final(self).0.base_spec() == old(self).0.base_spec(),
            final(self).0.pipeline_spec() == old(self).0.pipeline_spec(),
            final(self).0.m2_spec() == old(self).0.m2_spec(),
            final(self).0.m3_spec() == old(self).0.m3_spec(),
            final(self).0.m4_spec() == old(self).0.m4_spec(),
            final(self).0.m5_spec() == old(self).0.m5_spec(),
            final(self).0.m6_spec() == old(self).0.m6_spec(),
            final(self).0.m7_spec() == old(self).0.m7_spec(),
            old(self).0.m1_spec().contains(value)
                ==> final(self).0.m1_spec().to_multiset()
                == old(self).0.m1_spec().to_multiset().remove(value),
            !old(self).0.m1_spec().contains(value)
                ==> final(self).0.m1_spec() == old(self).0.m1_spec(),
    {
        self.0.remove_m1(value);
    }

    /// Removes one occurrence equal to `value` from slot 2; a no-op if
    /// no equal modifier is stored.
    pub fn remove_m2(&mut self, value: M2)
        ensures
            final(self).0.base_spec() == old(self).0.base_spec(),
            final(self).0.pipeline_spec() == old(self).0.pipeline_spec(),
            final(self).0.m1_spec() == old(self).0.m1_spec(),
            final(self).0.m3_spec() == old(self).0.m3_spec(),
            final(self).0.m4_spec() == old(self).0.m4_spec(),
            final(self).0.m5_spec() == old(self).0.m5_spec(),
            final(self).0.m6_spec() == old(self).0.m6_spec(),
            final(self).0.m7_spec() == old(self).0.m7_spec(),
            old(self).0.m2_spec().contains(value)
                ==> final(self).0.m2_spec().to_multiset()
                == old(self).0.m2_spec().to_multiset().remove(value),
            !old(self).0.m2_spec().contains(value)
                ==> final(self).0.m2_spec() == old(self).0.m2_spec(),
    {
        self.0.remove_m2(value);
    }

    /// Removes one occurrence equal to `value` from slot 3; a no-op if
    /// no equal modifier is stored.
    pub fn remove_m3(&mut self, value: M3)
        ensures
            final(self).0.base_spec() == old(self).0.base_spec(),
            final(self).0.pipeline_spec() == old(self).0.pipeline_spec(),
            final(self).0.m1_spec() == old(self).0.m1_spec(),
            final(self).0.m2_spec() == old(self).0.m2_spec(),
            final(self).0.m4_spec() == old(self).0.m4_spec(),
            final(self).0.m5_spec() == old(self).0.m5_spec(),
            final(self).0.m6_spec() == old(self).0.m6_spec(),
            final(self).0.m7_spec() == old(self).0.m7_spec(),
            old(self).0.m3_spec().contains(value)
                ==> final(self).0.m3_spec().to_multiset()
                == old(self).0.m3_spec().to_multiset().remove(value),
            !old(self).0.m3_spec().contains(value)
                ==> final(self).0.m3_spec() == old(self).0.m3_spec(),
    {
        self.0.remove_m3(value);
    }

    /// Removes one occurrence equal to `value` from slot 4; a no-op if
    /// no equal modifier is stored.
    pub fn remove_m4(&mut self, value: M4)
        ensures
            final(self).0.base_spec() == old(self).0.base_spec(),
            final(self).0.pipeline_spec() == old(self).0.pipeline_spec(),
            final(self).0.m1_spec() == old(self).0.m1_spec(),
            final(self).0.m2_spec() == old(self).0.m2_spec(),
            final(self).0.m3_spec() == old(self).0.m3_spec(),
            final(self).0.m5_spec() == old(self).0.m5_spec(),
            final(self).0.m6_spec() == old(self).0.m6_spec(),
            final(self).0.m7_spec() == old(self).0.m7_spec(),
            old(self).0.m4_spec().contains(value)
                ==> final(self).0.m4_spec().to_multiset()
                == old(self).0.m4_spec().to_multiset().remove(value),
            !old(self).0.m4_spec().contains(value)
                ==> final(self).0.m4_spec() == old(self).0.m4_spec(),
    {
        self.0.remove_m4(value);
    }

    /// Removes one occurrence equal to `value` from slot 5; a no-op if
    /// no equal modifier is stored.
    pub fn remove_m5(&mut self, value: M5)
        ensures
            final(self).0.base_spec() == old(self).0.base_spec(),
            final(self).0.pipeline_spec() == old(self).0.pipeline_spec(),
            final(self).0.m1_spec() == old(self).0.m1_spec(),
            final(self).0.m2_spec() == old(self).0.m2_spec(),
            final(self).0.m3_spec() == old(self).0.m3_spec(),
            final(self).0.m4_spec() == old(self).0.m4_spec(),
            final(self).0.m6_spec() == old(self).0.m6_spec(),
            final(self).0.m7_spec() == old(self).0.m7_spec(),
            old(self).0.m5_spec().contains(value)
                ==> final(self).0.m5_spec().to_multiset()
                == old(self).0.m5_spec().to_multiset().remove(value),
            !old(self).0.m5_spec().contains(value)
                ==> final(self).0.m5_spec() == old(self).0.m5_spec(),
    {
        self.0.remove_m5(value);
    }

    /// Removes one occurrence equal to `value` from slot 6; a no-op if
    /// no equal modifier is stored.
    pub fn remove_m6(&mut self, value: M6)
        ensures
            final(self).0.base_spec() == old(self).0.base_spec(),
            final(self).0.pipeline_spec() == old(self).0.pipeline_spec(),
            final(self).0.m1_spec() == old(self).0.m1_spec(),
            final(self).0.m2_spec() == old(self).0.m2_spec(),
            final(self).0.m3_spec() == old(self).0.m3_spec(),
            final(self).0.m4_spec() == old(self).0.m4_spec(),
            final(self).0.m5_spec() == old(self).0.m5_spec(),
            final(self).0.m7_spec() == old(self).0.m7_spec(),
            old(self).0.m6_spec().contains(value)
                ==> final(self).0.m6_spec().to_multiset()
                == old(self).0.m6_spec().to_multiset().remove(value),
            !old(self).0.m6_spec().contains(value)
                ==> final(self).0.m6_spec() == old(self).0.m6_spec(),
    {
        self.0.remove_m6(value);
    }

    /// Removes one occurrence equal to `value` from slot 7; a no-op if
    /// no equal modifier is stored.
    pub fn remove_m7(&mut self, value: M7)
        ensures
            final(self).0.base_spec() == old(self).0.base_spec(),
            final(self).0.pipeline_spec() == old(self).0.pipeline_spec(),
            final(self).0.m1_spec() == old(self).0.m1_spec(),
            final(self).0.m2_spec() == old(self).0.m2_spec(),
            final(self).0.m3_spec() == old(self).0.m3_spec(),
            final(self).0.m4_spec() == old(self).0.m4_spec(),
            final(self).0.m5_spec() == old(self).0.m5_spec(),
            final(self).0.m6_spec() == old(self).0.m6_spec(),
            old(self).0.m7_spec().contains(value)
                ==> final(self).0.m7_spec().to_multiset()
                == old(self).0.m7_spec().to_multiset().remove(value),
            !old(self).0.m7_spec().contains(value)
                ==> final(self).0.m7_spec() == old(self).0.m7_spec(),
    {
        self.0.remove_m7(value);
    }

    /// True if and only if a modifier equal to `value` is stored in slot
    /// 1.
    pub fn has_m1(&self, value: M1) -> (r: bool)
        ensures
            r == self.0.m1_spec().contains(value),
    {
        self.0.has_m1(value)
    }

    /// True if and only if a modifier equal to `value` is stored in slot
    /// 2.
    pub fn has_m2(&self, value: M2) -> (r: bool)
        ensures
            r == self.0.m2_spec().contains(value),
    {
        self.0.has_m2(value)
    }

    /// True if and only if a modifier equal to `value` is stored in slot
    /// 3.
    pub fn has_m3(&self, value: M3) -> (r: bool)
        ensures
            r == self.0.m3_spec().contains(value),
    {
        self.0.has_m3(value)
    }

    /// True if and only if a modifier equal to `value` is stored in slot
    /// 4.
    pub fn has_m4(&self, value: M4) -> (r: bool)
        ensures
            r == self.0.m4_spec().contains(value),
    {
        self.0.has_m4(value)
    }

    /// True if and only if a modifier equal to `value` is stored in slot
    /// 5.
    pub fn has_m5(&self, value: M5) -> (r: bool)
        ensures
            r == self.0.m5_spec().contains(value),
    {
        self.0.has_m5(value)
    }

    /// True if and only if a modifier equal to `value` is stored in slot
    /// 6.
    pub fn has_m6(&self, value: M6) -> (r: bool)
        ensures
            r == self.0.m6_spec().contains(value),
    {
        self.0.has_m6(value)
    }

    /// True if and only if a modifier equal to `value` is stored in slot
    /// 7.
    pub fn has_m7(&self, value: M7) -> (r: bool)
        ensures
            r == self.0.m7_spec().contains(value),
    {
        self.0.has_m7(value)
    }

    /// The immutable base value.
    pub fn base(&self) -> (r: Marker::Raw)
        ensures
            r == self.0.base_spec(),
    {
        self.0.base()
    }

    /// Recomputes the stat from the base and the current collections.
    pub fn get(&self) -> (r: Marker::Raw)
        ensures
            r == self.0.value_spec(),
    {
        self.0.get()
    }
}

/// The exclusive-owner counterpart of [`crate::stat::Stat8`]: an
/// aggregator over 8 modifier categories whose single owner applies and
/// removes modifiers through exclusive borrows.
pub struct Stat8NS<Marker, M1, M2, M3, M4, M5, M6, M7, M8, F>(pub Stat8<Marker, M1, M2, M3, M4, M5, M6, M7, M8, F>) where
    Marker: StatMarker,
    M1: Modifier,
    M2: Modifier,
    M3: Modifier,
    M4: Modifier,
    M5: Modifier,
    M6: Modifier,
    M7: Modifier,
    M8: Modifier,
    F: Pipeline8<Marker, M1, M2, M3, M4, M5, M6, M7, M8>,
;

impl<Marker, M1, M2, M3, M4, M5, M6, M7, M8, F> Stat8NS<Marker, M1, M2, M3, M4, M5, M6, M7, M8, F> where
    Marker: StatMarker,
    M1: Modifier,
    M2: Modifier,
    M3: Modifier,
    M4: Modifier,
    M5: Modifier,
    M6: Modifier,
    M7: Modifier,
    M8: Modifier,
    F: Pipeline8<Marker, M1, M2, M3, M4, M5, M6, M7, M8>,
 {
    /// Creates an exclusive-owner aggregator with no modifiers.
    pub fn new(base: Marker::Raw, f: F) -> (r: Self)
        ensures
            r.0.base_spec() == base,
            r.0.pipeline_spec() == f,
            r.0.m1_spec() == Seq::<M1>::empty(),
            r.0.m2_spec() == Seq::<M2>::empty(),
            r.0.m3_spec() == Seq::<M3>::empty(),
            r.0.m4_spec() == Seq::<M4>::empty(),
            r.0.m5_spec() == Seq::<M5>::empty(),
            r.0.m6_spec() == Seq::<M6>::empty(),
            r.0.m7_spec() == Seq::<M7>::empty(),
            r.0.m8_spec() == Seq::<M8>::empty(),
    {
        Stat8NS(Stat8::new(base, f))
    }

    /// Inserts a modifier into slot 1.
    pub fn apply_m1(&mut self, value: M1)
        ensures
            final(self).0.base_spec() == old(self).0.base_spec(),
            final(self).0.pipeline_spec() == old(self).0.pipeline_spec(),
            final(self).0.m2_spec() == old(self).0.m2_spec(),
            final(self).0.m3_spec() == old(self).0.m3_spec(),
            final(self).0.m4_spec() == old(self).0.m4_spec(),
            final(self).0.m5_spec() == old(self).0.m5_spec(),
            final(self).0.m6_spec() == old(self).0.m6_spec(),
            final(self).0.m7_spec() == old(self).0.m7_spec(),
            final(self).0.m8_spec() == old(self).0.m8_spec(),
            final(self).0.m1_spec() == old(self).0.m1_spec().push(value),
    {
        self.0.apply_m1(value);
    }

    /// Inserts a modifier into slot 2.
    pub fn apply_m2(&mut self, value: M2)
        ensures
            final(self).0.base_spec() == old(self).0.base_spec(),
            final(self).0.pipeline_spec() == old(self).0.pipeline_spec(),
            final(self).0.m1_spec() == old(self).0.m1_spec(),
            final(self).0.m3_spec() == old(self).0.m3_spec(),
            final(self).0.m4_spec() == old(self).0.m4_spec(),
            final(self).0.m5_spec() == old(self).0.m5_spec(),
            final(self).0.m6_spec() == old(self).0.m6_spec(),
            final(self).0.m7_spec() == old(self).0.m7_spec(),
            final(self).0.m8_spec() == old(self).0.m8_spec(),
            final(self).0.m2_spec() == old(self).0.m2_spec().push(value),
    {
        self.0.apply_m2(value);
    }

    /// Inserts a modifier into slot 3.
    pub fn apply_m3(&mut self, value: M3)
        ensures
            final(self).0.base_spec() == old(self).0.base_spec(),
            final(self).0.pipeline_spec() == old(self).0.pipeline_spec(),
            final(self).0.m1_spec() == old(self).0.m1_spec(),
            final(self).0.m2_spec() == old(self).0.m2_spec(),
            final(self).0.m4_spec() == old(self).0.m4_spec(),
            final(self).0.m5_spec() == old(self).0.m5_spec(),
            final(self).0.m6_spec() == old(self).0.m6_spec(),
            final(self).0.m7_spec() == old(self).0.m7_spec(),
            final(self).0.m8_spec() == old(self).0.m8_spec(),
            final(self).0.m3_spec() == old(self).0.m3_spec().push(value),
    {
        self.0.apply_m3(value);
    }

    /// Inserts a modifier into slot 4.
    pub fn apply_m4(&mut self, value: M4)
        ensures
            final(self).0.base_spec() == old(self).0.base_spec(),
            final(self).0.pipeline_spec() == old(self).0.pipeline_spec(),
            final(self).0.m1_spec() == old(self).0.m1_spec(),
            final(self).0.m2_spec() == old(self).0.m2_spec(),
            final(self).0.m3_spec() == old(self).0.m3_spec(),
            final(self).0.m5_spec() == old(self).0.m5_spec(),
            final(self).0.m6_spec() == old(self).0.m6_spec(),
            final(self).0.m7_spec() == old(self).0.m7_spec(),
            final(self).0.m8_spec() == old(self).0.m8_spec(),
            final(self).0.m4_spec() == old(self).0.m4_spec().push(value),
    {
        self.0.apply_m4(value);
    }

    /// Inserts a modifier into slot 5.
    pub fn apply_m5(&mut self, value: M5)
        ensures
            final(self).0.base_spec() == old(self).0.base_spec(),
            final(self).0.pipeline_spec() == old(self).0.pipeline_spec(),
            final(self).0.m1_spec() == old(self).0.m1_spec(),
            final(self).0.m2_spec() == old(self).0.m2_spec(),
            final(self).0.m3_spec() == old(self).0.m3_spec(),
            final(self).0.m4_spec() == old(self).0.m4_spec(),
            final(self).0.m6_spec() == old(self).0.m6_spec(),
            final(self).0.m7_spec() == old(self).0.m7_spec(),
            final(self).0.m8_spec() == old(self).0.m8_spec(),
            final(self).0.m5_spec() == old(self).0.m5_spec().push(value),
    {
        self.0.apply_m5(value);
    }

    /// Inserts a modifier into slot 6.
    pub fn apply_m6(&mut self, value: M6)
        ensures
            final(self).0.base_spec() == old(self).0.base_spec(),
            final(self).0.pipeline_spec() == old(self).0.pipeline_spec(),
            final(self).0.m1_spec() == old(self).0.m1_spec(),
            final(self).0.m2_spec() == old(self).0.m2_spec(),
            final(self).0.m3_spec() == old(self).0.m3_spec(),
            final(self).0.m4_spec() == old(self).0.m4_spec(),
            final(self).0.m5_spec() == old(self).0.m5_spec(),
            final(self).0.m7_spec() == old(self).0.m7_spec(),
            final(self).0.m8_spec() == old(self).0.m8_spec(),
            final(self).0.m6_spec() == old(self).0.m6_spec().push(value),
    {
        self.0.apply_m6(value);
    }

    /// Inserts a modifier into slot 7.
    pub fn apply_m7(&mut self, value: M7)
        ensures
            final(self).0.base_spec() == old(self).0.base_spec(),
            final(self).0.pipeline_spec() == old(self).0.pipeline_spec(),
            final(self).0.m1_spec() == old(self).0.m1_spec(),
            final(self).0.m2_spec() == old(self).0.m2_spec(),
            final(self).0.m3_spec() == old(self).0.m3_spec(),
            final(self).0.m4_spec() == old(self).0.m4_spec(),
            final(self).0.m5_spec() == old(self).0.m5_spec(),
            final(self).0.m6_spec() == old(self).0.m6_spec(),
            final(self).0.m8_spec() == old(self).0.m8_spec(),
            final(self).0.m7_spec() == old(self).0.m7_spec().push(value),
    {
        self.0.apply_m7(value);
    }

    /// Inserts a modifier into slot 8.
    pub fn apply_m8(&mut self, value: M8)
        ensures
            final(self).0.base_spec() == old(self).0.base_spec(),
            final(self).0.pipeline_spec() == old(self).0.pipeline_spec(),
            final(self).0.m1_spec() == old(self).0.m1_spec(),
            final(self).0.m2_spec() == old(self).0.m2_spec(),
            final(self).0.m3_spec() == old(self).0.m3_spec(),
            final(self).0.m4_spec() == old(self).0.m4_spec(),
            final(self).0.m5_spec() == old(self).0.m5_spec(),
            final(self).0.m6_spec() == old(self).0.m6_spec(),
            final(self).0.m7_spec() == old(self).0.m7_spec(),
            final(self).0.m8_spec() == old(self).0.m8_spec().push(value),
    {
        self.0.apply_m8(value);
    }

    /// Removes one occurrence equal to `value` from slot 1; a no-op if
    /// no equal modifier is stored.
    pub fn remove_m1(&mut self, value: M1)
        ensures
            final(self).0.base_spec() == old(self).0.base_spec(),
            final(self).0.pipeline_spec() == old(self).0.pipeline_spec(),
            final(self).0.m2_spec() == old(self).0.m2_spec(),
            final(self).0.m3_spec() == old(self).0.m3_spec(),
            final(self).0.m4_spec() == old(self).0.m4_spec(),
            final(self).0.m5_spec() == old(self).0.m5_spec(),
            final(self).0.m6_spec() == old(self).0.m6_spec(),
            final(self).0.m7_spec() == old(self).0.m7_spec(),
            final(self).0.m8_spec() == old(self).0.m8_spec(),
            old(self).0.m1_spec().contains(value)
                ==> final(self).0.m1_spec().to_multiset()
                == old(self).0.m1_spec().to_multiset().remove(value),
            !old(self).0.m1_spec().contains(value)
                ==> final(self).0.m1_spec() == old(self).0.m1_spec(),
    {
        self.0.remove_m1(value);
    }

    /// Removes one occurrence equal to `value` from slot 2; a no-op if
    /// no equal modifier is stored.
    pub fn remove_m2(&mut self, value: M2)
        ensures
            final(self).0.base_spec() == old(self).0.base_spec(),
            final(self).0.pipeline_spec() == old(self).0.pipeline_spec(),
            final(self).0.m1_spec() == old(self).0.m1_spec(),
            final(self).0.m3_spec() == old(self).0.m3_spec(),
            final(self).0.m4_spec() == old(self).0.m4_spec(),
            final(self).0.m5_spec() == old(self).0.m5_spec(),
            final(self).0.m6_spec() == old(self).0.m6_spec(),
            final(self).0.m7_spec() == old(self).0.m7_spec(),
            final(self).0.m8_spec() == old(self).0.m8_spec(),
            old(self).0.m2_spec().contains(value)
                ==> final(self).0.m2_spec().to_multiset()
                == old(self).0.m2_spec().to_multiset().remove(value),
            !old(self).0.m2_spec().contains(value)
                ==> final(self).0.m2_spec() == old(self).0.m2_spec(),
    {
        self.0.remove_m2(value);
    }

    /// Removes one occurrence equal to `value` from slot 3; a no-op if
    /// no equal modifier is stored.
    pub fn remove_m3(&mut self, value: M3)
        ensures
            final(self).0.base_spec() == old(self).0.base_spec(),
            final(self).0.pipeline_spec() == old(self).0.pipeline_spec(),
            final(self).0.m1_spec() == old(self).0.m1_spec(),
            final(self).0.m2_spec() == old(self).0.m2_spec(),
            final(self).0.m4_spec() == old(self).0.m4_spec(),
            final(self).0.m5_spec() == old(self).0.m5_spec(),
            final(self).0.m6_spec() == old(self).0.m6_spec(),
            final(self).0.m7_spec() == old(self).0.m7_spec(),
            final(self).0.m8_spec() == old(self).0.m8_spec(),
            old(self).0.m3_spec().contains(value)
                ==> final(self).0.m3_spec().to_multiset()
                == old(self).0.m3_spec().to_multiset().remove(value),
            !old(self).0.m3_spec().contains(value)
                ==> final(self).0.m3_spec() == old(self).0.m3_spec(),
    {
        self.0.remove_m3(value);
    }

    /// Removes one occurrence equal to `value` from slot 4; a no-op if
    /// no equal modifier is stored.
    pub fn remove_m4(&mut self, value: M4)
        ensures
            final(self).0.base_spec() == old(self).0.base_spec(),
            final(self).0.pipeline_spec() == old(self).0.pipeline_spec(),
            final(self).0.m1_spec() == old(self).0.m1_spec(),
            final(self).0.m2_spec() == old(self).0.m2_spec(),
            final(self).0.m3_spec() == old(self).0.m3_spec(),
            final(self).0.m5_spec() == old(self).0.m5_spec(),
            final(self).0.m6_spec() == old(self).0.m6_spec(),
            final(self).0.m7_spec() == old(self).0.m7_spec(),
            final(self).0.m8_spec() == old(self).0.m8_spec(),
            old(self).0.m4_spec().contains(value)
                ==> final(self).0.m4_spec().to_multiset()
                == old(self).0.m4_spec().to_multiset().remove(value),
            !old(self).0.m4_spec().contains(value)
                ==> final(self).0.m4_spec() == old(self).0.m4_spec(),
    {
        self.0.remove_m4(value);
    }

    /// Removes one occurrence equal to `value` from slot 5; a no-op if
    /// no equal modifier is stored.
    pub fn remove_m5(&mut self, value: M5)
        ensures
            final(self).0.base_spec() == old(self).0.base_spec(),
            final(self).0.pipeline_spec() == old(self).0.pipeline_spec(),
            final(self).0.m1_spec() == old(self).0.m1_spec(),
            final(self).0.m2_spec() == old(self).0.m2_spec(),
            final(self).0.m3_spec() == old(self).0.m3_spec(),
            final(self).0.m4_spec() == old(self).0.m4_spec(),
            final(self).0.m6_spec() == old(self).0.m6_spec(),
            final(self).0.m7_spec() == old(self).0.m7_spec(),
            final(self).0.m8_spec() == old(self).0.m8_spec(),
            old(self).0.m5_spec().contains(value)
                ==> final(self).0.m5_spec().to_multiset()
                == old(self).0.m5_spec().to_multiset().remove(value),
            !old(self).0.m5_spec().contains(value)
                ==> final(self).0.m5_spec() == old(self).0.m5_spec(),
    {
        self.0.remove_m5(value);
    }

    /// Removes one occurrence equal to `value` from slot 6; a no-op if
    /// no equal modifier is stored.
    pub fn remove_m6(&mut self, value: M6)
        ensures
            final(self).0.base_spec() == old(self).0.base_spec(),
            final(self).0.pipeline_spec() == old(self).0.pipeline_spec(),
            final(self).0.m1_spec() == old(self).0.m1_spec(),
            final(self).0.m2_spec() == old(self).0.m2_spec(),
            final(self).0.m3_spec() == old(self).0.m3_spec(),
            final(self).0.m4_spec() == old(self).0.m4_spec(),
            final(self).0.m5_spec() == old(self).0.m5_spec(),
            final(self).0.m7_spec() == old(self).0.m7_spec(),
            final(self).0.m8_spec() == old(self).0.m8_spec(),
            old(self).0.m6_spec().contains(value)
                ==> final(self).0.m6_spec().to_multiset()
                == old(self).0.m6_spec().to_multiset().remove(value),
            !old(self).0.m6_spec().contains(value)
                ==> final(self).0.m6_spec() == old(self).0.m6_spec(),
    {
        self.0.remove_m6(value);
    }

    /// Removes one occurrence equal to `value` from slot 7; a no-op if
    /// no equal modifier is stored.
    pub fn remove_m7(&mut self, value: M7)
        ensures
            final(self).0.base_spec() == old(self).0.base_spec(),
            final(self).0.pipeline_spec() == old(self).0.pipeline_spec(),
            final(self).0.m1_spec() == old(self).0.m1_spec(),
            final(self).0.m2_spec() == old(self).0.m2_spec(),
            final(self).0.m3_spec() == old(self).0.m3_spec(),
            final(self).0.m4_spec() == old(self).0.m4_spec(),
            final(self).0.m5_spec() == old(self).0.m5_spec(),
            final(self).0.m6_spec() == old(self).0.m6_spec(),
            final(self).0.m8_spec() == old(self).0.m8_spec(),
            old(self).0.m7_spec().contains(value)
                ==> final(self).0.m7_spec().to_multiset()
                == old(self).0.m7_spec().to_multiset().remove(value),
            !old(self).0.m7_spec().contains(value)
                ==> final(self).0.m7_spec() == old(self).0.m7_spec(),
    {
        self.0.remove_m7(value);
    }

    /// Removes one occurrence equal to `value` from slot 8; a no-op if
    /// no equal modifier is stored.
    pub fn remove_m8(&mut self, value: M8)
        ensures
            final(self).0.base_spec() == old(self).0.base_spec(),
            final(self).0.pipeline_spec() == old(self).0.pipeline_spec(),
            final(self).0.m1_spec() == old(self).0.m1_spec(),
            final(self).0.m2_spec() == old(self).0.m2_spec(),
            final(self).0.m3_spec() == old(self).0.m3_spec(),
            final(self).0.m4_spec() == old(self).0.m4_spec(),
            final(self).0.m5_spec() == old(self).0.m5_spec(),
            final(self).0.m6_spec() == old(self).0.m6_spec(),
            final(self).0.m7_spec() == old(self).0.m7_spec(),
            old(self).0.m8_spec().contains(value)
                ==> final(self).0.m8_spec().to_multiset()
                == old(self).0.m8_spec().to_multiset().remove(value),
            !old(self).0.m8_spec().contains(value)
                ==> final(self).0.m8_spec() == old(self).0.m8_spec(),
    {
        self.0.remove_m8(value);
    }

    /// True if and only if a modifier equal to `value` is stored in slot
    /// 1.
    pub fn has_m1(&self, value: M1) -> (r: bool)
        ensures
            r == self.0.m1_spec().contains(value),
    {
        self.0.has_m1(value)
    }

    /// True if and only if a modifier equal to `value` is stored in slot
    /// 2.
    pub fn has_m2(&self, value: M2) -> (r: bool)
        ensures
            r == self.0.m2_spec().contains(value),
    {
        self.0.has_m2(value)
    }

    /// True if and only if a modifier equal to `value` is stored in slot
    /// 3.
    pub fn has_m3(&self, value: M3) -> (r: bool)
        ensures
            r == self.0.m3_spec().contains(value),
    {
        self.0.has_m3(value)
    }

    /// True if and only if a modifier equal to `value` is stored in slot
    /// 4.
    pub fn has_m4(&self, value: M4) -> (r: bool)
        ensures
            r == self.0.m4_spec().contains(value),
    {
        self.0.has_m4(value)
    }

    /// True if and only if a modifier equal to `value` is stored in slot
    /// 5.
    pub fn has_m5(&self, value: M5) -> (r: bool)
        ensures
            r == self.0.m5_spec().contains(value),
    {
        self.0.has_m5(value)
    }

    /// True if and only if a modifier equal to `value` is stored in slot
    /// 6.
    pub fn has_m6(&self, value: M6) -> (r: bool)
        ensures
            r == self.0.m6_spec().contains(value),
    {
        self.0.has_m6(value)
    }

    /// True if and only if a modifier equal to `value` is stored in slot
    /// 7.
    pub fn has_m7(&self, value: M7) -> (r: bool)
        ensures
            r == self.0.m7_spec().contains(value),
    {
        self.0.has_m7(value)
    }

    /// True if and only if a modifier equal to `value` is stored in slot
    /// 8.
    pub fn has_m8(&self, value: M8) -> (r: bool)
        ensures
            r == self.0.m8_spec().contains(value),
    {
        self.0.has_m8(value)
    }

    /// The immutable base value.
    pub fn base(&self) -> (r: Marker::Raw)
        ensures
            r == self.0.base_spec(),
    {
        self.0.base()
    }

    /// Recomputes the stat from the base and the current collections.
    pub fn get(&self) -> (r: Marker::Raw)
        ensures
            r == self.0.value_spec(),
    {
        self.0.get()
    }
}

} // verus!

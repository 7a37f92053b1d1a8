//! The shared access wrappers: an aggregator whose category collections
//! sit behind a reader-writer lock, so that modifiers can be applied and
//! removed from several threads. Every operation takes the whole lock for
//! its duration; concurrent calls serialize and none is lost. The base
//! value and the pipeline are fixed at construction and live outside the
//! lock, so reading them never blocks.

use vstd::prelude::*;
use vstd::rwlock::{RwLock, RwLockPredicate};
use crate::modifier::Modifier;
use crate::pipeline::{Pipeline1, Pipeline2, Pipeline3, Pipeline4, Pipeline5, Pipeline6, Pipeline7, Pipeline8};
use crate::stat::{StatMarker, slot_contains, slot_remove_one, slot_snapshot};

pub mod standard;

verus! {

/// The lock invariant of a shared aggregator: category membership may be
/// any collection at all, so the invariant accepts every state.
pub struct AnySlots;

impl<V> RwLockPredicate<V> for AnySlots {
    open spec fn inv(self, v: V) -> bool {
        true
    }
}

/// The shared counterpart of [`crate::stat::Stat1`]: one modifier category
/// behind a reader-writer lock.
pub struct Stat1S<Marker, M1, F> where
    Marker: StatMarker,
    M1: Modifier,
    F: Pipeline1<Marker, M1>,
 {
    base: Marker::Raw,
    f: F,
    slots: RwLock<Vec<M1>, AnySlots>,
}

impl<Marker, M1, F> Stat1S<Marker, M1, F> where
    Marker: StatMarker,
    M1: Modifier,
    F: Pipeline1<Marker, M1>,
 {
    /// The immutable base value.
    pub closed spec fn base_spec(self) -> Marker::Raw {
        self.base
    }

    /// The pipeline supplied at construction.
    pub closed spec fn pipeline_spec(self) -> F {
        self.f
    }

    /// Creates a shared aggregator with no modifiers.
    pub fn new(base: Marker::Raw, f: F) -> (r: Self)
        ensures
            r.base_spec() == base,
            r.pipeline_spec() == f,
    {
        Stat1S { base, f, slots: RwLock::new(Vec::new(), Ghost(AnySlots)) }
    }

    /// Inserts a modifier into slot 1, holding the lock for the
    /// duration of the insertion.
    pub fn apply_m1(&self, value: M1) {
        let (mut v1, handle) = self.slots.acquire_write();
        v1.push(value);
        handle.release_write(v1);
    }

    /// Removes one occurrence equal to `value` from slot 1 by
    /// swap-removal, holding the lock for the duration; a no-op if no
    /// equal modifier is stored at that moment.
    pub fn remove_m1(&self, value: M1) {
        let (mut v1, handle) = self.slots.acquire_write();
        slot_remove_one(&mut v1, value);
        handle.release_write(v1);
    }

    /// True if and only if a modifier equal to `value` was stored in slot
    /// 1 at the moment the lock was held.
    pub fn has_m1(&self, value: M1) -> bool {
        let handle = self.slots.acquire_read();
        let r = slot_contains(handle.borrow(), value);
        handle.release_read();
        r
    }

    /// Copies slot 1's contents out, as they stood while the lock was
    /// held.
    pub fn m1_snapshot(&self) -> Vec<M1> {
        let handle = self.slots.acquire_read();
        let r = slot_snapshot(handle.borrow());
        handle.release_read();
        r
    }

    /// The immutable base value; never blocks.
    pub fn base(&self) -> (r: Marker::Raw)
        ensures
            r == self.base_spec(),
    {
        self.base
    }

    /// Recomputes the stat under the lock: the result is the pipeline
    /// applied to the base and the collections held at that moment.
    pub fn get(&self) -> (r: Marker::Raw)
        ensures
            exists|s1: Seq<M1>| r == self.pipeline_spec().eval_spec(self.base_spec(), s1),
    {
        let handle = self.slots.acquire_read();
        let v1 = handle.borrow();
        let r = self.f.eval(self.base, v1);
        proof {
            assert(r == self.pipeline_spec().eval_spec(self.base_spec(), v1@));
        }
        handle.release_read();
        r
    }
}

/// The shared counterpart of [`crate::stat::Stat2`]: 2 modifier categories
/// behind a reader-writer lock.
pub struct Stat2S<Marker, M1, M2, F> where
    Marker: StatMarker,
    M1: Modifier,
    M2: Modifier,
    F: Pipeline2<Marker, M1, M2>,
 {
    base: Marker::Raw,
    f: F,
    slots: RwLock<(Vec<M1>, Vec<M2>), AnySlots>,
}

impl<Marker, M1, M2, F> Stat2S<Marker, M1, M2, F> where
    Marker: StatMarker,
    M1: Modifier,
    M2: Modifier,
    F: Pipeline2<Marker, M1, M2>,
 {
    /// The immutable base value.
    pub closed spec fn base_spec(self) -> Marker::Raw {
        self.base
    }

    /// The pipeline supplied at construction.
    pub closed spec fn pipeline_spec(self) -> F {
        self.f
    }

    /// Creates a shared aggregator with no modifiers.
    pub fn new(base: Marker::Raw, f: F) -> (r: Self)
        ensures
            r.base_spec() == base,
            r.pipeline_spec() == f,
    {
        Stat2S { base, f, slots: RwLock::new((Vec::new(), Vec::new()), Ghost(AnySlots)) }
    }

    /// Inserts a modifier into slot 1, holding the lock for the
    /// duration of the insertion.
    pub fn apply_m1(&self, value: M1) {
        let (vs, handle) = self.slots.acquire_write();
        let (mut v1, v2) = vs;
        v1.push(value);
        handle.release_write((v1, v2));
    }

    /// Inserts a modifier into slot 2, holding the lock for the
    /// duration of the insertion.
    pub fn apply_m2(&self, value: M2) {
        let (vs, handle) = self.slots.acquire_write();
        let (v1, mut v2) = vs;
        v2.push(value);
        handle.release_write((v1, v2));
    }

    /// Removes one occurrence equal to `value` from slot 1 by
    /// swap-removal, holding the lock for the duration; a no-op if no
    /// equal modifier is stored at that moment.
    pub fn remove_m1(&self, value: M1) {
        let (vs, handle) = self.slots.acquire_write();
        let (mut v1, v2) = vs;
        slot_remove_one(&mut v1, value);
        handle.release_write((v1, v2));
    }

    /// Removes one occurrence equal to `value` from slot 2 by
    /// swap-removal, holding the lock for the duration; a no-op if no
    /// equal modifier is stored at that moment.
    pub fn remove_m2(&self, value: M2) {
        let (vs, handle) = self.slots.acquire_write();
        let (v1, mut v2) = vs;
        slot_remove_one(&mut v2, value);
        handle.release_write((v1, v2));
    }

    /// True if and only if a modifier equal to `value` was stored in slot
    /// 1 at the moment the lock was held.
    pub fn has_m1(&self, value: M1) -> bool {
        let handle = self.slots.acquire_read();
        let (v1, v2) = handle.borrow();
        let r = slot_contains(v1, value);
        handle.release_read();
        r
    }

    /// True if and only if a modifier equal to `value` was stored in slot
    /// 2 at the moment the lock was held.
    pub fn has_m2(&self, value: M2) -> bool {
        let handle = self.slots.acquire_read();
        let (v1, v2) = handle.borrow();
        let r = slot_contains(v2, value);
        handle.release_read();
        r
    }

    /// Copies slot 1's contents out, as they stood while the lock was
    /// held.
    pub fn m1_snapshot(&self) -> Vec<M1> {
        let handle = self.slots.acquire_read();
        let (v1, v2) = handle.borrow();
        let r = slot_snapshot(v1);
        handle.release_read();
        r
    }

    /// Copies slot 2's contents out, as they stood while the lock was
    /// held.
    pub fn m2_snapshot(&self) -> Vec<M2> {
        let handle = self.slots.acquire_read();
        let (v1, v2) = handle.borrow();
        let r = slot_snapshot(v2);
        handle.release_read();
        r
    }

    /// The immutable base value; never blocks.
    pub fn base(&self) -> (r: Marker::Raw)
        ensures
            r == self.base_spec(),
    {
        self.base
    }

    /// Recomputes the stat under the lock: the result is the pipeline
    /// applied to the base and the collections held at that moment.
    pub fn get(&self) -> (r: Marker::Raw)
        ensures
            exists|s1: Seq<M1>, s2: Seq<M2>| r == self.pipeline_spec().eval_spec(self.base_spec(), s1, s2),
    {
        let handle = self.slots.acquire_read();
        let (v1, v2) = handle.borrow();
        let r = self.f.eval(self.base, v1, v2);
        proof {
            assert(r == self.pipeline_spec().eval_spec(self.base_spec(), v1@, v2@));
        }
        handle.release_read();
        r
    }
}

/// The shared counterpart of [`crate::stat::Stat3`]: 3 modifier categories
/// behind a reader-writer lock.
pub struct Stat3S<Marker, M1, M2, M3, F> where
    Marker: StatMarker,
    M1: Modifier,
    M2: Modifier,
    M3: Modifier,
    F: Pipeline3<Marker, M1, M2, M3>,
 {
    base: Marker::Raw,
    f: F,
    slots: RwLock<(Vec<M1>, Vec<M2>, Vec<M3>), AnySlots>,
}

impl<Marker, M1, M2, M3, F> Stat3S<Marker, M1, M2, M3, F> where
    Marker: StatMarker,
    M1: Modifier,
    M2: Modifier,
    M3: Modifier,
    F: Pipeline3<Marker, M1, M2, M3>,
 {
    /// The immutable base value.
    pub closed spec fn base_spec(self) -> Marker::Raw {
        self.base
    }

    /// The pipeline supplied at construction.
    pub closed spec fn pipeline_spec(self) -> F {
        self.f
    }

    /// Creates a shared aggregator with no modifiers.
    pub fn new(base: Marker::Raw, f: F) -> (r: Self)
        ensures
            r.base_spec() == base,
            r.pipeline_spec() == f,
    {
        Stat3S { base, f, slots: RwLock::new((Vec::new(), Vec::new(), Vec::new()), Ghost(AnySlots)) }
    }

    /// Inserts a modifier into slot 1, holding the lock for the
    /// duration of the insertion.
    pub fn apply_m1(&self, value: M1) {
        let (vs, handle) = self.slots.acquire_write();
        let (mut v1, v2, v3) = vs;
        v1.push(value);
        handle.release_write((v1, v2, v3));
    }

    /// Inserts a modifier into slot 2, holding the lock for the
    /// duration of the insertion.
    pub fn apply_m2(&self, value: M2) {
        let (vs, handle) = self.slots.acquire_write();
        let (v1, mut v2, v3) = vs;
        v2.push(value);
        handle.release_write((v1, v2, v3));
    }

    /// Inserts a modifier into slot 3, holding the lock for the
    /// duration of the insertion.
    pub fn apply_m3(&self, value: M3) {
        let (vs, handle) = self.slots.acquire_write();
        let (v1, v2, mut v3) = vs;
        v3.push(value);
        handle.release_write((v1, v2, v3));
    }

    /// Removes one occurrence equal to `value` from slot 1 by
    /// swap-removal, holding the lock for the duration; a no-op if no
    /// equal modifier is stored at that moment.
    pub fn remove_m1(&self, value: M1) {
        let (vs, handle) = self.slots.acquire_write();
        let (mut v1, v2, v3) = vs;
        slot_remove_one(&mut v1, value);
        handle.release_write((v1, v2, v3));
    }

    /// Removes one occurrence equal to `value` from slot 2 by
    /// swap-removal, holding the lock for the duration; a no-op if no
    /// equal modifier is stored at that moment.
    pub fn remove_m2(&self, value: M2) {
        let (vs, handle) = self.slots.acquire_write();
        let (v1, mut v2, v3) = vs;
        slot_remove_one(&mut v2, value);
        handle.release_write((v1, v2, v3));
    }

    /// Removes one occurrence equal to `value` from slot 3 by
    /// swap-removal, holding the lock for the duration; a no-op if no
    /// equal modifier is stored at that moment.
    pub fn remove_m3(&self, value: M3) {
        let (vs, handle) = self.slots.acquire_write();
        let (v1, v2, mut v3) = vs;
        slot_remove_one(&mut v3, value);
        handle.release_write((v1, v2, v3));
    }

    /// True if and only if a modifier equal to `value` was stored in slot
    /// 1 at the moment the lock was held.
    pub fn has_m1(&self, value: M1) -> bool {
        let handle = self.slots.acquire_read();
        let (v1, v2, v3) = handle.borrow();
        let r = slot_contains(v1, value);
        handle.release_read();
        r
    }

    /// True if and only if a modifier equal to `value` was stored in slot
    /// 2 at the moment the lock was held.
    pub fn has_m2(&self, value: M2) -> bool {
        let handle = self.slots.acquire_read();
        let (v1, v2, v3) = handle.borrow();
        let r = slot_contains(v2, value);
        handle.release_read();
        r
    }

    /// True if and only if a modifier equal to `value` was stored in slot
    /// 3 at the moment the lock was held.
    pub fn has_m3(&self, value: M3) -> bool {
        let handle = self.slots.acquire_read();
        let (v1, v2, v3) = handle.borrow();
        let r = slot_contains(v3, value);
        handle.release_read();
        r
    }

    /// Copies slot 1's contents out, as they stood while the lock was
    /// held.
    pub fn m1_snapshot(&self) -> Vec<M1> {
        let handle = self.slots.acquire_read();
        let (v1, v2, v3) = handle.borrow();
        let r = slot_snapshot(v1);
        handle.release_read();
        r
    }

    /// Copies slot 2's contents out, as they stood while the lock was
    /// held.
    pub fn m2_snapshot(&self) -> Vec<M2> {
        let handle = self.slots.acquire_read();
        let (v1, v2, v3) = handle.borrow();
        let r = slot_snapshot(v2);
        handle.release_read();
        r
    }

    /// Copies slot 3's contents out, as they stood while the lock was
    /// held.
    pub fn m3_snapshot(&self) -> Vec<M3> {
        let handle = self.slots.acquire_read();
        let (v1, v2, v3) = handle.borrow();
        let r = slot_snapshot(v3);
        handle.release_read();
        r
    }

    /// The immutable base value; never blocks.
    pub fn base(&self) -> (r: Marker::Raw)
        ensures
            r == self.base_spec(),
    {
        self.base
    }

    /// Recomputes the stat under the lock: the result is the pipeline
    /// applied to the base and the collections held at that moment.
    pub fn get(&self) -> (r: Marker::Raw)
        ensures
            exists|s1: Seq<M1>, s2: Seq<M2>, s3: Seq<M3>| r == self.pipeline_spec().eval_spec(self.base_spec(), s1, s2, s3),
    {
        let handle = self.slots.acquire_read();
        let (v1, v2, v3) = handle.borrow();
        let r = self.f.eval(self.base, v1, v2, v3);
        proof {
            assert(r == self.pipeline_spec().eval_spec(self.base_spec(), v1@, v2@, v3@));
        }
        handle.release_read();
        r
    }
}

/// The shared counterpart of [`crate::stat::Stat4`]: 4 modifier categories
/// behind a reader-writer lock.
pub struct Stat4S<Marker, M1, M2, M3, M4, F> where
    Marker: StatMarker,
    M1: Modifier,
    M2: Modifier,
    M3: Modifier,
    M4: Modifier,
    F: Pipeline4<Marker, M1, M2, M3, M4>,
 {
    base: Marker::Raw,
    f: F,
    slots: RwLock<(Vec<M1>, Vec<M2>, Vec<M3>, Vec<M4>), AnySlots>,
}

impl<Marker, M1, M2, M3, M4, F> Stat4S<Marker, M1, M2, M3, M4, F> where
    Marker: StatMarker,
    M1: Modifier,
    M2: Modifier,
    M3: Modifier,
    M4: Modifier,
    F: Pipeline4<Marker, M1, M2, M3, M4>,
 {
    /// The immutable base value.
    pub closed spec fn base_spec(self) -> Marker::Raw {
        self.base
    }

    /// The pipeline supplied at construction.
    pub closed spec fn pipeline_spec(self) -> F {
        self.f
    }

    /// Creates a shared aggregator with no modifiers.
    pub fn new(base: Marker::Raw, f: F) -> (r: Self)
        ensures
            r.base_spec() == base,
            r.pipeline_spec() == f,
    {
        Stat4S { base, f, slots: RwLock::new((Vec::new(), Vec::new(), Vec::new(), Vec::new()), Ghost(AnySlots)) }
    }

    /// Inserts a modifier into slot 1, holding the lock for the
    /// duration of the insertion.
    pub fn apply_m1(&self, value: M1) {
        let (vs, handle) = self.slots.acquire_write();
        let (mut v1, v2, v3, v4) = vs;
        v1.push(value);
        handle.release_write((v1, v2, v3, v4));
    }

    /// Inserts a modifier into slot 2, holding the lock for the
    /// duration of the insertion.
    pub fn apply_m2(&self, value: M2) {
        let (vs, handle) = self.slots.acquire_write();
        let (v1, mut v2, v3, v4) = vs;
        v2.push(value);
        handle.release_write((v1, v2, v3, v4));
    }

    /// Inserts a modifier into slot 3, holding the lock for the
    /// duration of the insertion.
    pub fn apply_m3(&self, value: M3) {
        let (vs, handle) = self.slots.acquire_write();
        let (v1, v2, mut v3, v4) = vs;
        v3.push(value);
        handle.release_write((v1, v2, v3, v4));
    }

    /// Inserts a modifier into slot 4, holding the lock for the
    /// duration of the insertion.
    pub fn apply_m4(&self, value: M4) {
        let (vs, handle) = self.slots.acquire_write();
        let (v1, v2, v3, mut v4) = vs;
        v4.push(value);
        handle.release_write((v1, v2, v3, v4));
    }

    /// Removes one occurrence equal to `value` from slot 1 by
    /// swap-removal, holding the lock for the duration; a no-op if no
    /// equal modifier is stored at that moment.
    pub fn remove_m1(&self, value: M1) {
        let (vs, handle) = self.slots.acquire_write();
        let (mut v1, v2, v3, v4) = vs;
        slot_remove_one(&mut v1, value);
        handle.release_write((v1, v2, v3, v4));
    }

    /// Removes one occurrence equal to `value` from slot 2 by
    /// swap-removal, holding the lock for the duration; a no-op if no
    /// equal modifier is stored at that moment.
    pub fn remove_m2(&self, value: M2) {
        let (vs, handle) = self.slots.acquire_write();
        let (v1, mut v2, v3, v4) = vs;
        slot_remove_one(&mut v2, value);
        handle.release_write((v1, v2, v3, v4));
    }

    /// Removes one occurrence equal to `value` from slot 3 by
    /// swap-removal, holding the lock for the duration; a no-op if no
    /// equal modifier is stored at that moment.
    pub fn remove_m3(&self, value: M3) {
        let (vs, handle) = self.slots.acquire_write();
        let (v1, v2, mut v3, v4) = vs;
        slot_remove_one(&mut v3, value);
        handle.release_write((v1, v2, v3, v4));
    }

    /// Removes one occurrence equal to `value` from slot 4 by
    /// swap-removal, holding the lock for the duration; a no-op if no
    /// equal modifier is stored at that moment.
    pub fn remove_m4(&self, value: M4) {
        let (vs, handle) = self.slots.acquire_write();
        let (v1, v2, v3, mut v4) = vs;
        slot_remove_one(&mut v4, value);
        handle.release_write((v1, v2, v3, v4));
    }

    /// True if and only if a modifier equal to `value` was stored in slot
    /// 1 at the moment the lock was held.
    pub fn has_m1(&self, value: M1) -> bool {
        let handle = self.slots.acquire_read();
        let (v1, v2, v3, v4) = handle.borrow();
        let r = slot_contains(v1, value);
        handle.release_read();
        r
    }

    /// True if and only if a modifier equal to `value` was stored in slot
    /// 2 at the moment the lock was held.
    pub fn has_m2(&self, value: M2) -> bool {
        let handle = self.slots.acquire_read();
        let (v1, v2, v3, v4) = handle.borrow();
        let r = slot_contains(v2, value);
        handle.release_read();
        r
    }

    /// True if and only if a modifier equal to `value` was stored in slot
    /// 3 at the moment the lock was held.
    pub fn has_m3(&self, value: M3) -> bool {
        let handle = self.slots.acquire_read();
        let (v1, v2, v3, v4) = handle.borrow();
        let r = slot_contains(v3, value);
        handle.release_read();
        r
    }

    /// True if and only if a modifier equal to `value` was stored in slot
    /// 4 at the moment the lock was held.
    pub fn has_m4(&self, value: M4) -> bool {
        let handle = self.slots.acquire_read();
        let (v1, v2, v3, v4) = handle.borrow();
        let r = slot_contains(v4, value);
        handle.release_read();
        r
    }

    /// Copies slot 1's contents out, as they stood while the lock was
    /// held.
    pub fn m1_snapshot(&self) -> Vec<M1> {
        let handle = self.slots.acquire_read();
        let (v1, v2, v3, v4) = handle.borrow();
        let r = slot_snapshot(v1);
        handle.release_read();
        r
    }

    /// Copies slot 2's contents out, as they stood while the lock was
    /// held.
    pub fn m2_snapshot(&self) -> Vec<M2> {
        let handle = self.slots.acquire_read();
        let (v1, v2, v3, v4) = handle.borrow();
        let r = slot_snapshot(v2);
        handle.release_read();
        r
    }

    /// Copies slot 3's contents out, as they stood while the lock was
    /// held.
    pub fn m3_snapshot(&self) -> Vec<M3> {
        let handle = self.slots.acquire_read();
        let (v1, v2, v3, v4) = handle.borrow();
        let r = slot_snapshot(v3);
        handle.release_read();
        r
    }

    /// Copies slot 4's contents out, as they stood while the lock was
    /// held.
    pub fn m4_snapshot(&self) -> Vec<M4> {
        let handle = self.slots.acquire_read();
        let (v1, v2, v3, v4) = handle.borrow();
        let r = slot_snapshot(v4);
        handle.release_read();
        r
    }

    /// The immutable base value; never blocks.
    pub fn base(&self) -> (r: Marker::Raw)
        ensures
            r == self.base_spec(),
    {
        self.base
    }

    /// Recomputes the stat under the lock: the result is the pipeline
    /// applied to the base and the collections held at that moment.
    pub fn get(&self) -> (r: Marker::Raw)
        ensures
            exists|s1: Seq<M1>, s2: Seq<M2>, s3: Seq<M3>, s4: Seq<M4>| r == self.pipeline_spec().eval_spec(self.base_spec(), s1, s2, s3, s4),
    {
        let handle = self.slots.acquire_read();
        let (v1, v2, v3, v4) = handle.borrow();
        let r = self.f.eval(self.base, v1, v2, v3, v4);
        proof {
            assert(r == self.pipeline_spec().eval_spec(self.base_spec(), v1@, v2@, v3@, v4@));
        }
        handle.release_read();
        r
    }
}

/// The shared counterpart of [`crate::stat::Stat5`]: 5 modifier categories
/// behind a reader-writer lock.
pub struct Stat5S<Marker, M1, M2, M3, M4, M5, F> where
    Marker: StatMarker,
    M1: Modifier,
    M2: Modifier,
    M3: Modifier,
    M4: Modifier,
    M5: Modifier,
    F: Pipeline5<Marker, M1, M2, M3, M4, M5>,
 {
    base: Marker::Raw,
    f: F,
    slots: RwLock<(Vec<M1>, Vec<M2>, Vec<M3>, Vec<M4>, Vec<M5>), AnySlots>,
}

impl<Marker, M1, M2, M3, M4, M5, F> Stat5S<Marker, M1, M2, M3, M4, M5, F> where
    Marker: StatMarker,
    M1: Modifier,
    M2: Modifier,
    M3: Modifier,
    M4: Modifier,
    M5: Modifier,
    F: Pipeline5<Marker, M1, M2, M3, M4, M5>,
 {
    /// The immutable base value.
    pub closed spec fn base_spec(self) -> Marker::Raw {
        self.base
    }

    /// The pipeline supplied at construction.
    pub closed spec fn pipeline_spec(self) -> F {
        self.f
    }

    /// Creates a shared aggregator with no modifiers.
    pub fn new(base: Marker::Raw, f: F) -> (r: Self)
        ensures
            r.base_spec() == base,
            r.pipeline_spec() == f,
    {
        Stat5S { base, f, slots: RwLock::new((Vec::new(), Vec::new(), Vec::new(), Vec::new(), Vec::new()), Ghost(AnySlots)) }
    }

    /// Inserts a modifier into slot 1, holding the lock for the
    /// duration of the insertion.
    pub fn apply_m1(&self, value: M1) {
        let (vs, handle) = self.slots.acquire_write();
        let (mut v1, v2, v3, v4, v5) = vs;
        v1.push(value);
        handle.release_write((v1, v2, v3, v4, v5));
    }

    /// Inserts a modifier into slot 2, holding the lock for the
    /// duration of the insertion.
    pub fn apply_m2(&self, value: M2) {
        let (vs, handle) = self.slots.acquire_write();
        let (v1, mut v2, v3, v4, v5) = vs;
        v2.push(value);
        handle.release_write((v1, v2, v3, v4, v5));
    }

    /// Inserts a modifier into slot 3, holding the lock for the
    /// duration of the insertion.
    pub fn apply_m3(&self, value: M3) {
        let (vs, handle) = self.slots.acquire_write();
        let (v1, v2, mut v3, v4, v5) = vs;
        v3.push(value);
        handle.release_write((v1, v2, v3, v4, v5));
    }

    /// Inserts a modifier into slot 4, holding the lock for the
    /// duration of the insertion.
    pub fn apply_m4(&self, value: M4) {
        let (vs, handle) = self.slots.acquire_write();
        let (v1, v2, v3, mut v4, v5) = vs;
        v4.push(value);
        handle.release_write((v1, v2, v3, v4, v5));
    }

    /// Inserts a modifier into slot 5, holding the lock for the
    /// duration of the insertion.
    pub fn apply_m5(&self, value: M5) {
        let (vs, handle) = self.slots.acquire_write();
        let (v1, v2, v3, v4, mut v5) = vs;
        v5.push(value);
        handle.release_write((v1, v2, v3, v4, v5));
    }

    /// Removes one occurrence equal to `value` from slot 1 by
    /// swap-removal, holding the lock for the duration; a no-op if no
    /// equal modifier is stored at that moment.
    pub fn remove_m1(&self, value: M1) {
        let (vs, handle) = self.slots.acquire_write();
        let (mut v1, v2, v3, v4, v5) = vs;
        slot_remove_one(&mut v1, value);
        handle.release_write((v1, v2, v3, v4, v5));
    }

    /// Removes one occurrence equal to `value` from slot 2 by
    /// swap-removal, holding the lock for the duration; a no-op if no
    /// equal modifier is stored at that moment.
    pub fn remove_m2(&self, value: M2) {
        let (vs, handle) = self.slots.acquire_write();
        let (v1, mut v2, v3, v4, v5) = vs;
        slot_remove_one(&mut v2, value);
        handle.release_write((v1, v2, v3, v4, v5));
    }

    /// Removes one occurrence equal to `value` from slot 3 by
    /// swap-removal, holding the lock for the duration; a no-op if no
    /// equal modifier is stored at that moment.
    pub fn remove_m3(&self, value: M3) {
        let (vs, handle) = self.slots.acquire_write();
        let (v1, v2, mut v3, v4, v5) = vs;
        slot_remove_one(&mut v3, value);
        handle.release_write((v1, v2, v3, v4, v5));
    }

    /// Removes one occurrence equal to `value` from slot 4 by
    /// swap-removal, holding the lock for the duration; a no-op if no
    /// equal modifier is stored at that moment.
    pub fn remove_m4(&self, value: M4) {
        let (vs, handle) = self.slots.acquire_write();
        let (v1, v2, v3, mut v4, v5) = vs;
        slot_remove_one(&mut v4, value);
        handle.release_write((v1, v2, v3, v4, v5));
    }

    /// Removes one occurrence equal to `value` from slot 5 by
    /// swap-removal, holding the lock for the duration; a no-op if no
    /// equal modifier is stored at that moment.
    pub fn remove_m5(&self, value: M5) {
        let (vs, handle) = self.slots.acquire_write();
        let (v1, v2, v3, v4, mut v5) = vs;
        slot_remove_one(&mut v5, value);
        handle.release_write((v1, v2, v3, v4, v5));
    }

    /// True if and only if a modifier equal to `value` was stored in slot
    /// 1 at the moment the lock was held.
    pub fn has_m1(&self, value: M1) -> bool {
        let handle = self.slots.acquire_read();
        let (v1, v2, v3, v4, v5) = handle.borrow();
        let r = slot_contains(v1, value);
        handle.release_read();
        r
    }

    /// True if and only if a modifier equal to `value` was stored in slot
    /// 2 at the moment the lock was held.
    pub fn has_m2(&self, value: M2) -> bool {
        let handle = self.slots.acquire_read();
        let (v1, v2, v3, v4, v5) = handle.borrow();
        let r = slot_contains(v2, value);
        handle.release_read();
        r
    }

    /// True if and only if a modifier equal to `value` was stored in slot
    /// 3 at the moment the lock was held.
    pub fn has_m3(&self, value: M3) -> bool {
        let handle = self.slots.acquire_read();
        let (v1, v2, v3, v4, v5) = handle.borrow();
        let r = slot_contains(v3, value);
        handle.release_read();
        r
    }

    /// True if and only if a modifier equal to `value` was stored in slot
    /// 4 at the moment the lock was held.
    pub fn has_m4(&self, value: M4) -> bool {
        let handle = self.slots.acquire_read();
        let (v1, v2, v3, v4, v5) = handle.borrow();
        let r = slot_contains(v4, value);
        handle.release_read();
        r
    }

    /// True if and only if a modifier equal to `value` was stored in slot
    /// 5 at the moment the lock was held.
    pub fn has_m5(&self, value: M5) -> bool {
        let handle = self.slots.acquire_read();
        let (v1, v2, v3, v4, v5) = handle.borrow();
        let r = slot_contains(v5, value);
        handle.release_read();
        r
    }

    /// Copies slot 1's contents out, as they stood while the lock was
    /// held.
    pub fn m1_snapshot(&self) -> Vec<M1> {
        let handle = self.slots.acquire_read();
        let (v1, v2, v3, v4, v5) = handle.borrow();
        let r = slot_snapshot(v1);
        handle.release_read();
        r
    }

    /// Copies slot 2's contents out, as they stood while the lock was
    /// held.
    pub fn m2_snapshot(&self) -> Vec<M2> {
        let handle = self.slots.acquire_read();
        let (v1, v2, v3, v4, v5) = handle.borrow();
        let r = slot_snapshot(v2);
        handle.release_read();
        r
    }

    /// Copies slot 3's contents out, as they stood while the lock was
    /// held.
    pub fn m3_snapshot(&self) -> Vec<M3> {
        let handle = self.slots.acquire_read();
        let (v1, v2, v3, v4, v5) = handle.borrow();
        let r = slot_snapshot(v3);
        handle.release_read();
        r
    }

    /// Copies slot 4's contents out, as they stood while the lock was
    /// held.
    pub fn m4_snapshot(&self) -> Vec<M4> {
        let handle = self.slots.acquire_read();
        let (v1, v2, v3, v4, v5) = handle.borrow();
        let r = slot_snapshot(v4);
        handle.release_read();
        r
    }

    /// Copies slot 5's contents out, as they stood while the lock was
    /// held.
    pub fn m5_snapshot(&self) -> Vec<M5> {
        let handle = self.slots.acquire_read();
        let (v1, v2, v3, v4, v5) = handle.borrow();
        let r = slot_snapshot(v5);
        handle.release_read();
        r
    }

    /// The immutable base value; never blocks.
    pub fn base(&self) -> (r: Marker::Raw)
        ensures
            r == self.base_spec(),
    {
        self.base
    }

    /// Recomputes the stat under the lock: the result is the pipeline
    /// applied to the base and the collections held at that moment.
    pub fn get(&self) -> (r: Marker::Raw)
        ensures
            exists|s1: Seq<M1>, s2: Seq<M2>, s3: Seq<M3>, s4: Seq<M4>, s5: Seq<M5>| r == self.pipeline_spec().eval_spec(self.base_spec(), s1, s2, s3, s4, s5),
    {
        let handle = self.slots.acquire_read();
        let (v1, v2, v3, v4, v5) = handle.borrow();
        let r = self.f.eval(self.base, v1, v2, v3, v4, v5);
        proof {
            assert(r == self.pipeline_spec().eval_spec(self.base_spec(), v1@, v2@, v3@, v4@, v5@));
        }
        handle.release_read();
        r
    }
}

/// The shared counterpart of [`crate::stat::Stat6`]: 6 modifier categories
/// behind a reader-writer lock.
pub struct Stat6S<Marker, M1, M2, M3, M4, M5, M6, F> where
    Marker: StatMarker,
    M1: Modifier,
    M2: Modifier,
    M3: Modifier,
    M4: Modifier,
    M5: Modifier,
    M6: Modifier,
    F: Pipeline6<Marker, M1, M2, M3, M4, M5, M6>,
 {
    base: Marker::Raw,
    f: F,
    slots: RwLock<(Vec<M1>, Vec<M2>, Vec<M3>, Vec<M4>, Vec<M5>, Vec<M6>), AnySlots>,
}

impl<Marker, M1, M2, M3, M4, M5, M6, F> Stat6S<Marker, M1, M2, M3, M4, M5, M6, F> where
    Marker: StatMarker,
    M1: Modifier,
    M2: Modifier,
    M3: Modifier,
    M4: Modifier,
    M5: Modifier,
    M6: Modifier,
    F: Pipeline6<Marker, M1, M2, M3, M4, M5, M6>,
 {
    /// The immutable base value.
    pub closed spec fn base_spec(self) -> Marker::Raw {
        self.base
    }

    /// The pipeline supplied at construction.
    pub closed spec fn pipeline_spec(self) -> F {
        self.f
    }

    /// Creates a shared aggregator with no modifiers.
    pub fn new(base: Marker::Raw, f: F) -> (r: Self)
        ensures
            r.base_spec() == base,
            r.pipeline_spec() == f,
    {
        Stat6S { base, f, slots: RwLock::new((Vec::new(), Vec::new(), Vec::new(), Vec::new(), Vec::new(), Vec::new()), Ghost(AnySlots)) }
    }

    /// Inserts a modifier into slot 1, holding the lock for the
    /// duration of the insertion.
    pub fn apply_m1(&self, value: M1) {
        let (vs, handle) = self.slots.acquire_write();
        let (mut v1, v2, v3, v4, v5, v6) = vs;
        v1.push(value);
        handle.release_write((v1, v2, v3, v4, v5, v6));
    }

    /// Inserts a modifier into slot 2, holding the lock for the
    /// duration of the insertion.
    pub fn apply_m2(&self, value: M2) {
        let (vs, handle) = self.slots.acquire_write();
        let (v1, mut v2, v3, v4, v5, v6) = vs;
        v2.push(value);
        handle.release_write((v1, v2, v3, v4, v5, v6));
    }

    /// Inserts a modifier into slot 3, holding the lock for the
    /// duration of the insertion.
    pub fn apply_m3(&self, value: M3) {
        let (vs, handle) = self.slots.acquire_write();
        let (v1, v2, mut v3, v4, v5, v6) = vs;
        v3.push(value);
        handle.release_write((v1, v2, v3, v4, v5, v6));
    }

    /// Inserts a modifier into slot 4, holding the lock for the
    /// duration of the insertion.
    pub fn apply_m4(&self, value: M4) {
        let (vs, handle) = self.slots.acquire_write();
        let (v1, v2, v3, mut v4, v5, v6) = vs;
        v4.push(value);
        handle.release_write((v1, v2, v3, v4, v5, v6));
    }

    /// Inserts a modifier into slot 5, holding the lock for the
    /// duration of the insertion.
    pub fn apply_m5(&self, value: M5) {
        let (vs, handle) = self.slots.acquire_write();
        let (v1, v2, v3, v4, mut v5, v6) = vs;
        v5.push(value);
        handle.release_write((v1, v2, v3, v4, v5, v6));
    }

    /// Inserts a modifier into slot 6, holding the lock for the
    /// duration of the insertion.
    pub fn apply_m6(&self, value: M6) {
        let (vs, handle) = self.slots.acquire_write();
        let (v1, v2, v3, v4, v5, mut v6) = vs;
        v6.push(value);
        handle.release_write((v1, v2, v3, v4, v5, v6));
    }

    /// Removes one occurrence equal to `value` from slot 1 by
    /// swap-removal, holding the lock for the duration; a no-op if no
    /// equal modifier is stored at that moment.
    pub fn remove_m1(&self, value: M1) {
        let (vs, handle) = self.slots.acquire_write();
        let (mut v1, v2, v3, v4, v5, v6) = vs;
        slot_remove_one(&mut v1, value);
        handle.release_write((v1, v2, v3, v4, v5, v6));
    }

    /// Removes one occurrence equal to `value` from slot 2 by
    /// swap-removal, holding the lock for the duration; a no-op if no
    /// equal modifier is stored at that moment.
    pub fn remove_m2(&self, value: M2) {
        let (vs, handle) = self.slots.acquire_write();
        let (v1, mut v2, v3, v4, v5, v6) = vs;
        slot_remove_one(&mut v2, value);
        handle.release_write((v1, v2, v3, v4, v5, v6));
    }

    /// Removes one occurrence equal to `value` from slot 3 by
    /// swap-removal, holding the lock for the duration; a no-op if no
    /// equal modifier is stored at that moment.
    pub fn remove_m3(&self, value: M3) {
        let (vs, handle) = self.slots.acquire_write();
        let (v1, v2, mut v3, v4, v5, v6) = vs;
        slot_remove_one(&mut v3, value);
        handle.release_write((v1, v2, v3, v4, v5, v6));
    }

    /// Removes one occurrence equal to `value` from slot 4 by
    /// swap-removal, holding the lock for the duration; a no-op if no
    /// equal modifier is stored at that moment.
    pub fn remove_m4(&self, value: M4) {
        let (vs, handle) = self.slots.acquire_write();
        let (v1, v2, v3, mut v4, v5, v6) = vs;
        slot_remove_one(&mut v4, value);
        handle.release_write((v1, v2, v3, v4, v5, v6));
    }

    /// Removes one occurrence equal to `value` from slot 5 by
    /// swap-removal, holding the lock for the duration; a no-op if no
    /// equal modifier is stored at that moment.
    pub fn remove_m5(&self, value: M5) {
        let (vs, handle) = self.slots.acquire_write();
        let (v1, v2, v3, v4, mut v5, v6) = vs;
        slot_remove_one(&mut v5, value);
        handle.release_write((v1, v2, v3, v4, v5, v6));
    }

    /// Removes one occurrence equal to `value` from slot 6 by
    /// swap-removal, holding the lock for the duration; a no-op if no
    /// equal modifier is stored at that moment.
    pub fn remove_m6(&self, value: M6) {
        let (vs, handle) = self.slots.acquire_write();
        let (v1, v2, v3, v4, v5, mut v6) = vs;
        slot_remove_one(&mut v6, value);
        handle.release_write((v1, v2, v3, v4, v5, v6));
    }

    /// True if and only if a modifier equal to `value` was stored in slot
    /// 1 at the moment the lock was held.
    pub fn has_m1(&self, value: M1) -> bool {
        let handle = self.slots.acquire_read();
        let (v1, v2, v3, v4, v5, v6) = handle.borrow();
        let r = slot_contains(v1, value);
        handle.release_read();
        r
    }

    /// True if and only if a modifier equal to `value` was stored in slot
    /// 2 at the moment the lock was held.
    pub fn has_m2(&self, value: M2) -> bool {
        let handle = self.slots.acquire_read();
        let (v1, v2, v3, v4, v5, v6) = handle.borrow();
        let r = slot_contains(v2, value);
        handle.release_read();
        r
    }

    /// True if and only if a modifier equal to `value` was stored in slot
    /// 3 at the moment the lock was held.
    pub fn has_m3(&self, value: M3) -> bool {
        let handle = self.slots.acquire_read();
        let (v1, v2, v3, v4, v5, v6) = handle.borrow();
        let r = slot_contains(v3, value);
        handle.release_read();
        r
    }

    /// True if and only if a modifier equal to `value` was stored in slot
    /// 4 at the moment the lock was held.
    pub fn has_m4(&self, value: M4) -> bool {
        let handle = self.slots.acquire_read();
        let (v1, v2, v3, v4, v5, v6) = handle.borrow();
        let r = slot_contains(v4, value);
        handle.release_read();
        r
    }

    /// True if and only if a modifier equal to `value` was stored in slot
    /// 5 at the moment the lock was held.
    pub fn has_m5(&self, value: M5) -> bool {
        let handle = self.slots.acquire_read();
        let (v1, v2, v3, v4, v5, v6) = handle.borrow();
        let r = slot_contains(v5, value);
        handle.release_read();
        r
    }

    /// True if and only if a modifier equal to `value` was stored in slot
    /// 6 at the moment the lock was held.
    pub fn has_m6(&self, value: M6) -> bool {
        let handle = self.slots.acquire_read();
        let (v1, v2, v3, v4, v5, v6) = handle.borrow();
        let r = slot_contains(v6, value);
        handle.release_read();
        r
    }

    /// Copies slot 1's contents out, as they stood while the lock was
    /// held.
    pub fn m1_snapshot(&self) -> Vec<M1> {
        let handle = self.slots.acquire_read();
        let (v1, v2, v3, v4, v5, v6) = handle.borrow();
        let r = slot_snapshot(v1);
        handle.release_read();
        r
    }

    /// Copies slot 2's contents out, as they stood while the lock was
    /// held.
    pub fn m2_snapshot(&self) -> Vec<M2> {
        let handle = self.slots.acquire_read();
        let (v1, v2, v3, v4, v5, v6) = handle.borrow();
        let r = slot_snapshot(v2);
        handle.release_read();
        r
    }

    /// Copies slot 3's contents out, as they stood while the lock was
    /// held.
    pub fn m3_snapshot(&self) -> Vec<M3> {
        let handle = self.slots.acquire_read();
        let (v1, v2, v3, v4, v5, v6) = handle.borrow();
        let r = slot_snapshot(v3);
        handle.release_read();
        r
    }

    /// Copies slot 4's contents out, as they stood while the lock was
    /// held.
    pub fn m4_snapshot(&self) -> Vec<M4> {
        let handle = self.slots.acquire_read();
        let (v1, v2, v3, v4, v5, v6) = handle.borrow();
        let r = slot_snapshot(v4);
        handle.release_read();
        r
    }

    /// Copies slot 5's contents out, as they stood while the lock was
    /// held.
    pub fn m5_snapshot(&self) -> Vec<M5> {
        let handle = self.slots.acquire_read();
        let (v1, v2, v3, v4, v5, v6) = handle.borrow();
        let r = slot_snapshot(v5);
        handle.release_read();
        r
    }

    /// Copies slot 6's contents out, as they stood while the lock was
    /// held.
    pub fn m6_snapshot(&self) -> Vec<M6> {
        let handle = self.slots.acquire_read();
        let (v1, v2, v3, v4, v5, v6) = handle.borrow();
        let r = slot_snapshot(v6);
        handle.release_read();
        r
    }

    /// The immutable base value; never blocks.
    pub fn base(&self) -> (r: Marker::Raw)
        ensures
            r == self.base_spec(),
    {
        self.base
    }

    /// Recomputes the stat under the lock: the result is the pipeline
    /// applied to the base and the collections held at that moment.
    pub fn get(&self) -> (r: Marker::Raw)
        ensures
            exists|s1: Seq<M1>, s2: Seq<M2>, s3: Seq<M3>, s4: Seq<M4>, s5: Seq<M5>, s6: Seq<M6>| r == self.pipeline_spec().eval_spec(self.base_spec(), s1, s2, s3, s4, s5, s6),
    {
        let handle = self.slots.acquire_read();
        let (v1, v2, v3, v4, v5, v6) = handle.borrow();
        let r = self.f.eval(self.base, v1, v2, v3, v4, v5, v6);
        proof {
            assert(r == self.pipeline_spec().eval_spec(self.base_spec(), v1@, v2@, v3@, v4@, v5@, v6@));
        }
        handle.release_read();
        r
    }
}

/// The shared counterpart of [`crate::stat::Stat7`]: 7 modifier categories
/// behind a reader-writer lock.
pub struct Stat7S<Marker, M1, M2, M3, M4, M5, M6, M7, F> where
    Marker: StatMarker,
    M1: Modifier,
    M2: Modifier,
    M3: Modifier,
    M4: Modifier,
    M5: Modifier,
    M6: Modifier,
    M7: Modifier,
    F: Pipeline7<Marker, M1, M2, M3, M4, M5, M6, M7>,
 {
    base: Marker::Raw,
    f: F,
    slots: RwLock<(Vec<M1>, Vec<M2>, Vec<M3>, Vec<M4>, Vec<M5>, Vec<M6>, Vec<M7>), AnySlots>,
}

impl<Marker, M1, M2, M3, M4, M5, M6, M7, F> Stat7S<Marker, M1, M2, M3, M4, M5, M6, M7, F> where
    Marker: StatMarker,
    M1: Modifier,
    M2: Modifier,
    M3: Modifier,
    M4: Modifier,
    M5: Modifier,
    M6: Modifier,
    M7: Modifier,
    F: Pipeline7<Marker, M1, M2, M3, M4, M5, M6, M7>,
 {
    /// The immutable base value.
    pub closed spec fn base_spec(self) -> Marker::Raw {
        self.base
    }

    /// The pipeline supplied at construction.
    pub closed spec fn pipeline_spec(self) -> F {
        self.f
    }

    /// Creates a shared aggregator with no modifiers.
    pub fn new(base: Marker::Raw, f: F) -> (r: Self)
        ensures
            r.base_spec() == base,
            r.pipeline_spec() == f,
    {
        Stat7S { base, f, slots: RwLock::new((Vec::new(), Vec::new(), Vec::new(), Vec::new(), Vec::new(), Vec::new(), Vec::new()), Ghost(AnySlots)) }
    }

    /// Inserts a modifier into slot 1, holding the lock for the
    /// duration of the insertion.
    pub fn apply_m1(&self, value: M1) {
        let (vs, handle) = self.slots.acquire_write();
        let (mut v1, v2, v3, v4, v5, v6, v7) = vs;
        v1.push(value);
        handle.release_write((v1, v2, v3, v4, v5, v6, v7));
    }

    /// Inserts a modifier into slot 2, holding the lock for the
    /// duration of the insertion.
    pub fn apply_m2(&self, value: M2) {
        let (vs, handle) = self.slots.acquire_write();
        let (v1, mut v2, v3, v4, v5, v6, v7) = vs;
        v2.push(value);
        handle.release_write((v1, v2, v3, v4, v5, v6, v7));
    }

    /// Inserts a modifier into slot 3, holding the lock for the
    /// duration of the insertion.
    pub fn apply_m3(&self, value: M3) {
        let (vs, handle) = self.slots.acquire_write();
        let (v1, v2, mut v3, v4, v5, v6, v7) = vs;
        v3.push(value);
        handle.release_write((v1, v2, v3, v4, v5, v6, v7));
    }

    /// Inserts a modifier into slot 4, holding the lock for the
    /// duration of the insertion.
    pub fn apply_m4(&self, value: M4) {
        let (vs, handle) = self.slots.acquire_write();
        let (v1, v2, v3, mut v4, v5, v6, v7) = vs;
        v4.push(value);
        handle.release_write((v1, v2, v3, v4, v5, v6, v7));
    }

    /// Inserts a modifier into slot 5, holding the lock for the
    /// duration of the insertion.
    pub fn apply_m5(&self, value: M5) {
        let (vs, handle) = self.slots.acquire_write();
        let (v1, v2, v3, v4, mut v5, v6, v7) = vs;
        v5.push(value);
        handle.release_write((v1, v2, v3, v4, v5, v6, v7));
    }

    /// Inserts a modifier into slot 6, holding the lock for the
    /// duration of the insertion.
    pub fn apply_m6(&self, value: M6) {
        let (vs, handle) = self.slots.acquire_write();
        let (v1, v2, v3, v4, v5, mut v6, v7) = vs;
        v6.push(value);
        handle.release_write((v1, v2, v3, v4, v5, v6, v7));
    }

    /// Inserts a modifier into slot 7, holding the lock for the
    /// duration of the insertion.
    pub fn apply_m7(&self, value: M7) {
        let (vs, handle) = self.slots.acquire_write();
        let (v1, v2, v3, v4, v5, v6, mut v7) = vs;
        v7.push(value);
        handle.release_write((v1, v2, v3, v4, v5, v6, v7));
    }

    /// Removes one occurrence equal to `value` from slot 1 by
    /// swap-removal, holding the lock for the duration; a no-op if no
    /// equal modifier is stored at that moment.
    pub fn remove_m1(&self, value: M1) {
        let (vs, handle) = self.slots.acquire_write();
        let (mut v1, v2, v3, v4, v5, v6, v7) = vs;
        slot_remove_one(&mut v1, value);
        handle.release_write((v1, v2, v3, v4, v5, v6, v7));
    }

    /// Removes one occurrence equal to `value` from slot 2 by
    /// swap-removal, holding the lock for the duration; a no-op if no
    /// equal modifier is stored at that moment.
    pub fn remove_m2(&self, value: M2) {
        let (vs, handle) = self.slots.acquire_write();
        let (v1, mut v2, v3, v4, v5, v6, v7) = vs;
        slot_remove_one(&mut v2, value);
        handle.release_write((v1, v2, v3, v4, v5, v6, v7));
    }

    /// Removes one occurrence equal to `value` from slot 3 by
    /// swap-removal, holding the lock for the duration; a no-op if no
    /// equal modifier is stored at that moment.
    pub fn remove_m3(&self, value: M3) {
        let (vs, handle) = self.slots.acquire_write();
        let (v1, v2, mut v3, v4, v5, v6, v7) = vs;
        slot_remove_one(&mut v3, value);
        handle.release_write((v1, v2, v3, v4, v5, v6, v7));
    }

    /// Removes one occurrence equal to `value` from slot 4 by
    /// swap-removal, holding the lock for the duration; a no-op if no
    /// equal modifier is stored at that moment.
    pub fn remove_m4(&self, value: M4) {
        let (vs, handle) = self.slots.acquire_write();
        let (v1, v2, v3, mut v4, v5, v6, v7) = vs;
        slot_remove_one(&mut v4, value);
        handle.release_write((v1, v2, v3, v4, v5, v6, v7));
    }

    /// Removes one occurrence equal to `value` from slot 5 by
    /// swap-removal, holding the lock for the duration; a no-op if no
    /// equal modifier is stored at that moment.
    pub fn remove_m5(&self, value: M5) {
        let (vs, handle) = self.slots.acquire_write();
        let (v1, v2, v3, v4, mut v5, v6, v7) = vs;
        slot_remove_one(&mut v5, value);
        handle.release_write((v1, v2, v3, v4, v5, v6, v7));
    }

    /// Removes one occurrence equal to `value` from slot 6 by
    /// swap-removal, holding the lock for the duration; a no-op if no
    /// equal modifier is stored at that moment.
    pub fn remove_m6(&self, value: M6) {
        let (vs, handle) = self.slots.acquire_write();
        let (v1, v2, v3, v4, v5, mut v6, v7) = vs;
        slot_remove_one(&mut v6, value);
        handle.release_write((v1, v2, v3, v4, v5, v6, v7));
    }

    /// Removes one occurrence equal to `value` from slot 7 by
    /// swap-removal, holding the lock for the duration; a no-op if no
    /// equal modifier is stored at that moment.
    pub fn remove_m7(&self, value: M7) {
        let (vs, handle) = self.slots.acquire_write();
        let (v1, v2, v3, v4, v5, v6, mut v7) = vs;
        slot_remove_one(&mut v7, value);
        handle.release_write((v1, v2, v3, v4, v5, v6, v7));
    }

    /// True if and only if a modifier equal to `value` was stored in slot
    /// 1 at the moment the lock was held.
    pub fn has_m1(&self, value: M1) -> bool {
        let handle = self.slots.acquire_read();
        let (v1, v2, v3, v4, v5, v6, v7) = handle.borrow();
        let r = slot_contains(v1, value);
        handle.release_read();
        r
    }

    /// True if and only if a modifier equal to `value` was stored in slot
    /// 2 at the moment the lock was held.
    pub fn has_m2(&self, value: M2) -> bool {
        let handle = self.slots.acquire_read();
        let (v1, v2, v3, v4, v5, v6, v7) = handle.borrow();
        let r = slot_contains(v2, value);
        handle.release_read();
        r
    }

    /// True if and only if a modifier equal to `value` was stored in slot
    /// 3 at the moment the lock was held.
    pub fn has_m3(&self, value: M3) -> bool {
        let handle = self.slots.acquire_read();
        let (v1, v2, v3, v4, v5, v6, v7) = handle.borrow();
        let r = slot_contains(v3, value);
        handle.release_read();
        r
    }

    /// True if and only if a modifier equal to `value` was stored in slot
    /// 4 at the moment the lock was held.
    pub fn has_m4(&self, value: M4) -> bool {
        let handle = self.slots.acquire_read();
        let (v1, v2, v3, v4, v5, v6, v7) = handle.borrow();
        let r = slot_contains(v4, value);
        handle.release_read();
        r
    }

    /// True if and only if a modifier equal to `value` was stored in slot
    /// 5 at the moment the lock was held.
    pub fn has_m5(&self, value: M5) -> bool {
        let handle = self.slots.acquire_read();
        let (v1, v2, v3, v4, v5, v6, v7) = handle.borrow();
        let r = slot_contains(v5, value);
        handle.release_read();
        r
    }

    /// True if and only if a modifier equal to `value` was stored in slot
    /// 6 at the moment the lock was held.
    pub fn has_m6(&self, value: M6) -> bool {
        let handle = self.slots.acquire_read();
        let (v1, v2, v3, v4, v5, v6, v7) = handle.borrow();
        let r = slot_contains(v6, value);
        handle.release_read();
        r
    }

    /// True if and only if a modifier equal to `value` was stored in slot
    /// 7 at the moment the lock was held.
    pub fn has_m7(&self, value: M7) -> bool {
        let handle = self.slots.acquire_read();
        let (v1, v2, v3, v4, v5, v6, v7) = handle.borrow();
        let r = slot_contains(v7, value);
        handle.release_read();
        r
    }

    /// Copies slot 1's contents out, as they stood while the lock was
    /// held.
    pub fn m1_snapshot(&self) -> Vec<M1> {
        let handle = self.slots.acquire_read();
        let (v1, v2, v3, v4, v5, v6, v7) = handle.borrow();
        let r = slot_snapshot(v1);
        handle.release_read();
        r
    }

    /// Copies slot 2's contents out, as they stood while the lock was
    /// held.
    pub fn m2_snapshot(&self) -> Vec<M2> {
        let handle = self.slots.acquire_read();
        let (v1, v2, v3, v4, v5, v6, v7) = handle.borrow();
        let r = slot_snapshot(v2);
        handle.release_read();
        r
    }

    /// Copies slot 3's contents out, as they stood while the lock was
    /// held.
    pub fn m3_snapshot(&self) -> Vec<M3> {
        let handle = self.slots.acquire_read();
        let (v1, v2, v3, v4, v5, v6, v7) = handle.borrow();
        let r = slot_snapshot(v3);
        handle.release_read();
        r
    }

    /// Copies slot 4's contents out, as they stood while the lock was
    /// held.
    pub fn m4_snapshot(&self) -> Vec<M4> {
        let handle = self.slots.acquire_read();
        let (v1, v2, v3, v4, v5, v6, v7) = handle.borrow();
        let r = slot_snapshot(v4);
        handle.release_read();
        r
    }

    /// Copies slot 5's contents out, as they stood while the lock was
    /// held.
    pub fn m5_snapshot(&self) -> Vec<M5> {
        let handle = self.slots.acquire_read();
        let (v1, v2, v3, v4, v5, v6, v7) = handle.borrow();
        let r = slot_snapshot(v5);
        handle.release_read();
        r
    }

    /// Copies slot 6's contents out, as they stood while the lock was
    /// held.
    pub fn m6_snapshot(&self) -> Vec<M6> {
        let handle = self.slots.acquire_read();
        let (v1, v2, v3, v4, v5, v6, v7) = handle.borrow();
        let r = slot_snapshot(v6);
        handle.release_read();
        r
    }

    /// Copies slot 7's contents out, as they stood while the lock was
    /// held.
    pub fn m7_snapshot(&self) -> Vec<M7> {
        let handle = self.slots.acquire_read();
        let (v1, v2, v3, v4, v5, v6, v7) = handle.borrow();
        let r = slot_snapshot(v7);
        handle.release_read();
        r
    }

    /// The immutable base value; never blocks.
    pub fn base(&self) -> (r: Marker::Raw)
        ensures
            r == self.base_spec(),
    {
        self.base
    }

    /// Recomputes the stat under the lock: the result is the pipeline
    /// applied to the base and the collections held at that moment.
    pub fn get(&self) -> (r: Marker::Raw)
        ensures
            exists|s1: Seq<M1>, s2: Seq<M2>, s3: Seq<M3>, s4: Seq<M4>, s5: Seq<M5>, s6: Seq<M6>, s7: Seq<M7>| r == self.pipeline_spec().eval_spec(self.base_spec(), s1, s2, s3, s4, s5, s6, s7),
    {
        let handle = self.slots.acquire_read();
        let (v1, v2, v3, v4, v5, v6, v7) = handle.borrow();
        let r = self.f.eval(self.base, v1, v2, v3, v4, v5, v6, v7);
        proof {
            assert(r == self.pipeline_spec().eval_spec(self.base_spec(), v1@, v2@, v3@, v4@, v5@, v6@, v7@));
        }
        handle.release_read();
        r
    }
}

/// The shared counterpart of [`crate::stat::Stat8`]: 8 modifier categories
/// behind a reader-writer lock.
pub struct Stat8S<Marker, M1, M2, M3, M4, M5, M6, M7, M8, F> where
    Marker: StatMarker,
    M1: Modifier,
    M2: Modifier,
    M3: Modifier,
    M4: Modifier,
    M5: Modifier,
    M6: Modifier,
    M7: Modifier,
    M8: Modifier,
    F: Pipeline8<Marker, M1, M2, M3, M4, M5, M6, M7, M8>,
 {
    base: Marker::Raw,
    f: F,
    slots: RwLock<(Vec<M1>, Vec<M2>, Vec<M3>, Vec<M4>, Vec<M5>, Vec<M6>, Vec<M7>, Vec<M8>), AnySlots>,
}

impl<Marker, M1, M2, M3, M4, M5, M6, M7, M8, F> Stat8S<Marker, M1, M2, M3, M4, M5, M6, M7, M8, F> where
    Marker: StatMarker,
    M1: Modifier,
    M2: Modifier,
    M3: Modifier,
    M4: Modifier,
    M5: Modifier,
    M6: Modifier,
    M7: Modifier,
    M8: Modifier,
    F: Pipeline8<Marker, M1, M2, M3, M4, M5, M6, M7, M8>,
 {
    /// The immutable base value.
    pub closed spec fn base_spec(self) -> Marker::Raw {
        self.base
    }

    /// The pipeline supplied at construction.
    pub closed spec fn pipeline_spec(self) -> F {
        self.f
    }

    /// Creates a shared aggregator with no modifiers.
    pub fn new(base: Marker::Raw, f: F) -> (r: Self)
        ensures
            r.base_spec() == base,
            r.pipeline_spec() == f,
    {
        Stat8S { base, f, slots: RwLock::new((Vec::new(), Vec::new(), Vec::new(), Vec::new(), Vec::new(), Vec::new(), Vec::new(), Vec::new()), Ghost(AnySlots)) }
    }

    /// Inserts a modifier into slot 1, holding the lock for the
    /// duration of the insertion.
    pub fn apply_m1(&self, value: M1) {
        let (vs, handle) = self.slots.acquire_write();
        let (mut v1, v2, v3, v4, v5, v6, v7, v8) = vs;
        v1.push(value);
        handle.release_write((v1, v2, v3, v4, v5, v6, v7, v8));
    }

    /// Inserts a modifier into slot 2, holding the lock for the
    /// duration of the insertion.
    pub fn apply_m2(&self, value: M2) {
        let (vs, handle) = self.slots.acquire_write();
        let (v1, mut v2, v3, v4, v5, v6, v7, v8) = vs;
        v2.push(value);
        handle.release_write((v1, v2, v3, v4, v5, v6, v7, v8));
    }

    /// Inserts a modifier into slot 3, holding the lock for the
    /// duration of the insertion.
    pub fn apply_m3(&self, value: M3) {
        let (vs, handle) = self.slots.acquire_write();
        let (v1, v2, mut v3, v4, v5, v6, v7, v8) = vs;
        v3.push(value);
        handle.release_write((v1, v2, v3, v4, v5, v6, v7, v8));
    }

    /// Inserts a modifier into slot 4, holding the lock for the
    /// duration of the insertion.
    pub fn apply_m4(&self, value: M4) {
        let (vs, handle) = self.slots.acquire_write();
        let (v1, v2, v3, mut v4, v5, v6, v7, v8) = vs;
        v4.push(value);
        handle.release_write((v1, v2, v3, v4, v5, v6, v7, v8));
    }

    /// Inserts a modifier into slot 5, holding the lock for the
    /// duration of the insertion.
    pub fn apply_m5(&self, value: M5) {
        let (vs, handle) = self.slots.acquire_write();
        let (v1, v2, v3, v4, mut v5, v6, v7, v8) = vs;
        v5.push(value);
        handle.release_write((v1, v2, v3, v4, v5, v6, v7, v8));
    }

    /// Inserts a modifier into slot 6, holding the lock for the
    /// duration of the insertion.
    pub fn apply_m6(&self, value: M6) {
        let (vs, handle) = self.slots.acquire_write();
        let (v1, v2, v3, v4, v5, mut v6, v7, v8) = vs;
        v6.push(value);
        handle.release_write((v1, v2, v3, v4, v5, v6, v7, v8));
    }

    /// Inserts a modifier into slot 7, holding the lock for the
    /// duration of the insertion.
    pub fn apply_m7(&self, value: M7) {
        let (vs, handle) = self.slots.acquire_write();
        let (v1, v2, v3, v4, v5, v6, mut v7, v8) = vs;
        v7.push(value);
        handle.release_write((v1, v2, v3, v4, v5, v6, v7, v8));
    }

    /// Inserts a modifier into slot 8, holding the lock for the
    /// duration of the insertion.
    pub fn apply_m8(&self, value: M8) {
        let (vs, handle) = self.slots.acquire_write();
        let (v1, v2, v3, v4, v5, v6, v7, mut v8) = vs;
        v8.push(value);
        handle.release_write((v1, v2, v3, v4, v5, v6, v7, v8));
    }

    /// Removes one occurrence equal to `value` from slot 1 by
    /// swap-removal, holding the lock for the duration; a no-op if no
    /// equal modifier is stored at that moment.
    pub fn remove_m1(&self, value: M1) {
        let (vs, handle) = self.slots.acquire_write();
        let (mut v1, v2, v3, v4, v5, v6, v7, v8) = vs;
        slot_remove_one(&mut v1, value);
        handle.release_write((v1, v2, v3, v4, v5, v6, v7, v8));
    }

    /// Removes one occurrence equal to `value` from slot 2 by
    /// swap-removal, holding the lock for the duration; a no-op if no
    /// equal modifier is stored at that moment.
    pub fn remove_m2(&self, value: M2) {
        let (vs, handle) = self.slots.acquire_write();
        let (v1, mut v2, v3, v4, v5, v6, v7, v8) = vs;
        slot_remove_one(&mut v2, value);
        handle.release_write((v1, v2, v3, v4, v5, v6, v7, v8));
    }

    /// Removes one occurrence equal to `value` from slot 3 by
    /// swap-removal, holding the lock for the duration; a no-op if no
    /// equal modifier is stored at that moment.
    pub fn remove_m3(&self, value: M3) {
        let (vs, handle) = self.slots.acquire_write();
        let (v1, v2, mut v3, v4, v5, v6, v7, v8) = vs;
        slot_remove_one(&mut v3, value);
        handle.release_write((v1, v2, v3, v4, v5, v6, v7, v8));
    }

    /// Removes one occurrence equal to `value` from slot 4 by
    /// swap-removal, holding the lock for the duration; a no-op if no
    /// equal modifier is stored at that moment.
    pub fn remove_m4(&self, value: M4) {
        let (vs, handle) = self.slots.acquire_write();
        let (v1, v2, v3, mut v4, v5, v6, v7, v8) = vs;
        slot_remove_one(&mut v4, value);
        handle.release_write((v1, v2, v3, v4, v5, v6, v7, v8));
    }

    /// Removes one occurrence equal to `value` from slot 5 by
    /// swap-removal, holding the lock for the duration; a no-op if no
    /// equal modifier is stored at that moment.
    pub fn remove_m5(&self, value: M5) {
        let (vs, handle) = self.slots.acquire_write();
        let (v1, v2, v3, v4, mut v5, v6, v7, v8) = vs;
        slot_remove_one(&mut v5, value);
        handle.release_write((v1, v2, v3, v4, v5, v6, v7, v8));
    }

    /// Removes one occurrence equal to `value` from slot 6 by
    /// swap-removal, holding the lock for the duration; a no-op if no
    /// equal modifier is stored at that moment.
    pub fn remove_m6(&self, value: M6) {
        let (vs, handle) = self.slots.acquire_write();
        let (v1, v2, v3, v4, v5, mut v6, v7, v8) = vs;
        slot_remove_one(&mut v6, value);
        handle.release_write((v1, v2, v3, v4, v5, v6, v7, v8));
    }

    /// Removes one occurrence equal to `value` from slot 7 by
    /// swap-removal, holding the lock for the duration; a no-op if no
    /// equal modifier is stored at that moment.
    pub fn remove_m7(&self, value: M7) {
        let (vs, handle) = self.slots.acquire_write();
        let (v1, v2, v3, v4, v5, v6, mut v7, v8) = vs;
        slot_remove_one(&mut v7, value);
        handle.release_write((v1, v2, v3, v4, v5, v6, v7, v8));
    }

    /// Removes one occurrence equal to `value` from slot 8 by
    /// swap-removal, holding the lock for the duration; a no-op if no
    /// equal modifier is stored at that moment.
    pub fn remove_m8(&self, value: M8) {
        let (vs, handle) = self.slots.acquire_write();
        let (v1, v2, v3, v4, v5, v6, v7, mut v8) = vs;
        slot_remove_one(&mut v8, value);
        handle.release_write((v1, v2, v3, v4, v5, v6, v7, v8));
    }

    /// True if and only if a modifier equal to `value` was stored in slot
    /// 1 at the moment the lock was held.
    pub fn has_m1(&self, value: M1) -> bool {
        let handle = self.slots.acquire_read();
        let (v1, v2, v3, v4, v5, v6, v7, v8) = handle.borrow();
        let r = slot_contains(v1, value);
        handle.release_read();
        r
    }

    /// True if and only if a modifier equal to `value` was stored in slot
    /// 2 at the moment the lock was held.
    pub fn has_m2(&self, value: M2) -> bool {
        let handle = self.slots.acquire_read();
        let (v1, v2, v3, v4, v5, v6, v7, v8) = handle.borrow();
        let r = slot_contains(v2, value);
        handle.release_read();
        r
    }

    /// True if and only if a modifier equal to `value` was stored in slot
    /// 3 at the moment the lock was held.
    pub fn has_m3(&self, value: M3) -> bool {
        let handle = self.slots.acquire_read();
        let (v1, v2, v3, v4, v5, v6, v7, v8) = handle.borrow();
        let r = slot_contains(v3, value);
        handle.release_read();
        r
    }

    /// True if and only if a modifier equal to `value` was stored in slot
    /// 4 at the moment the lock was held.
    pub fn has_m4(&self, value: M4) -> bool {
        let handle = self.slots.acquire_read();
        let (v1, v2, v3, v4, v5, v6, v7, v8) = handle.borrow();
        let r = slot_contains(v4, value);
        handle.release_read();
        r
    }

    /// True if and only if a modifier equal to `value` was stored in slot
    /// 5 at the moment the lock was held.
    pub fn has_m5(&self, value: M5) -> bool {
        let handle = self.slots.acquire_read();
        let (v1, v2, v3, v4, v5, v6, v7, v8) = handle.borrow();
        let r = slot_contains(v5, value);
        handle.release_read();
        r
    }

    /// True if and only if a modifier equal to `value` was stored in slot
    /// 6 at the moment the lock was held.
    pub fn has_m6(&self, value: M6) -> bool {
        let handle = self.slots.acquire_read();
        let (v1, v2, v3, v4, v5, v6, v7, v8) = handle.borrow();
        let r = slot_contains(v6, value);
        handle.release_read();
        r
    }

    /// True if and only if a modifier equal to `value` was stored in slot
    /// 7 at the moment the lock was held.
    pub fn has_m7(&self, value: M7) -> bool {
        let handle = self.slots.acquire_read();
        let (v1, v2, v3, v4, v5, v6, v7, v8) = handle.borrow();
        let r = slot_contains(v7, value);
        handle.release_read();
        r
    }

    /// True if and only if a modifier equal to `value` was stored in slot
    /// 8 at the moment the lock was held.
    pub fn has_m8(&self, value: M8) -> bool {
        let handle = self.slots.acquire_read();
        let (v1, v2, v3, v4, v5, v6, v7, v8) = handle.borrow();
        let r = slot_contains(v8, value);
        handle.release_read();
        r
    }

    /// Copies slot 1's contents out, as they stood while the lock was
    /// held.
    pub fn m1_snapshot(&self) -> Vec<M1> {
        let handle = self.slots.acquire_read();
        let (v1, v2, v3, v4, v5, v6, v7, v8) = handle.borrow();
        let r = slot_snapshot(v1);
        handle.release_read();
        r
    }

    /// Copies slot 2's contents out, as they stood while the lock was
    /// held.
    pub fn m2_snapshot(&self) -> Vec<M2> {
        let handle = self.slots.acquire_read();
        let (v1, v2, v3, v4, v5, v6, v7, v8) = handle.borrow();
        let r = slot_snapshot(v2);
        handle.release_read();
        r
    }

    /// Copies slot 3's contents out, as they stood while the lock was
    /// held.
    pub fn m3_snapshot(&self) -> Vec<M3> {
        let handle = self.slots.acquire_read();
        let (v1, v2, v3, v4, v5, v6, v7, v8) = handle.borrow();
        let r = slot_snapshot(v3);
        handle.release_read();
        r
    }

    /// Copies slot 4's contents out, as they stood while the lock was
    /// held.
    pub fn m4_snapshot(&self) -> Vec<M4> {
        let handle = self.slots.acquire_read();
        let (v1, v2, v3, v4, v5, v6, v7, v8) = handle.borrow();
        let r = slot_snapshot(v4);
        handle.release_read();
        r
    }

    /// Copies slot 5's contents out, as they stood while the lock was
    /// held.
    pub fn m5_snapshot(&self) -> Vec<M5> {
        let handle = self.slots.acquire_read();
        let (v1, v2, v3, v4, v5, v6, v7, v8) = handle.borrow();
        let r = slot_snapshot(v5);
        handle.release_read();
        r
    }

    /// Copies slot 6's contents out, as they stood while the lock was
    /// held.
    pub fn m6_snapshot(&self) -> Vec<M6> {
        let handle = self.slots.acquire_read();
        let (v1, v2, v3, v4, v5, v6, v7, v8) = handle.borrow();
        let r = slot_snapshot(v6);
        handle.release_read();
        r
    }

    /// Copies slot 7's contents out, as they stood while the lock was
    /// held.
    pub fn m7_snapshot(&self) -> Vec<M7> {
        let handle = self.slots.acquire_read();
        let (v1, v2, v3, v4, v5, v6, v7, v8) = handle.borrow();
        let r = slot_snapshot(v7);
        handle.release_read();
        r
    }

    /// Copies slot 8's contents out, as they stood while the lock was
    /// held.
    pub fn m8_snapshot(&self) -> Vec<M8> {
        let handle = self.slots.acquire_read();
        let (v1, v2, v3, v4, v5, v6, v7, v8) = handle.borrow();
        let r = slot_snapshot(v8);
        handle.release_read();
        r
    }

    /// The immutable base value; never blocks.
    pub fn base(&self) -> (r: Marker::Raw)
        ensures
            r == self.base_spec(),
    {
        self.base
    }

    /// Recomputes the stat under the lock: the result is the pipeline
    /// applied to the base and the collections held at that moment.
    pub fn get(&self) -> (r: Marker::Raw)
        ensures
            exists|s1: Seq<M1>, s2: Seq<M2>, s3: Seq<M3>, s4: Seq<M4>, s5: Seq<M5>, s6: Seq<M6>, s7: Seq<M7>, s8: Seq<M8>| r == self.pipeline_spec().eval_spec(self.base_spec(), s1, s2, s3, s4, s5, s6, s7, s8),
    {
        let handle = self.slots.acquire_read();
        let (v1, v2, v3, v4, v5, v6, v7, v8) = handle.borrow();
        let r = self.f.eval(self.base, v1, v2, v3, v4, v5, v6, v7, v8);
        proof {
            assert(r == self.pipeline_spec().eval_spec(self.base_spec(), v1@, v2@, v3@, v4@, v5@, v6@, v7@, v8@));
        }
        handle.release_read();
        r
    }
}

} // verus!

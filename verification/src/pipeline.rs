//! The pipeline contract: a pipeline folds the base value and every
//! category's combined result into the final stat value. Each arity of
//! aggregator has its own pipeline trait; an implementation fixes the
//! formula, proves that it only depends on each collection through the
//! category's combine rule, and therefore never on storage order.

use vstd::prelude::*;
use crate::modifier::Modifier;
use crate::raw::RawValue;
use crate::stat::StatMarker;

verus! {

/// A pipeline over one modifier category.
pub trait Pipeline1<Marker: StatMarker, M1: Modifier>: Sized {
    /// The value the pipeline computes from the base and the collections.
    spec fn eval_spec(self, base: Marker::Raw, s1: Seq<M1>) -> Marker::Raw;

    /// Computes the pipeline.
    fn eval(&self, base: Marker::Raw, m1: &Vec<M1>) -> (r: Marker::Raw)
        ensures
            r == self.eval_spec(base, m1@),
    ;

    /// The result never depends on the order the modifiers are stored in.
    proof fn lemma_eval_permutation(self, base: Marker::Raw, s1: Seq<M1>, t1: Seq<M1>)
        requires
            s1.to_multiset() == t1.to_multiset(),
        ensures
            self.eval_spec(base, s1) == self.eval_spec(base, t1),
    ;
}

/// A pipeline over 2 modifier categories.
pub trait Pipeline2<Marker: StatMarker, M1: Modifier, M2: Modifier>: Sized {
    /// The value the pipeline computes from the base and the collections.
    spec fn eval_spec(self, base: Marker::Raw, s1: Seq<M1>, s2: Seq<M2>) -> Marker::Raw;

    /// Computes the pipeline.
    fn eval(&self, base: Marker::Raw, m1: &Vec<M1>, m2: &Vec<M2>) -> (r: Marker::Raw)
        ensures
            r == self.eval_spec(base, m1@, m2@),
    ;

    /// The result never depends on the order the modifiers are stored in.
    proof fn lemma_eval_permutation(self, base: Marker::Raw, s1: Seq<M1>, s2: Seq<M2>, t1: Seq<M1>, t2: Seq<M2>)
        requires
            s1.to_multiset() == t1.to_multiset(),
            s2.to_multiset() == t2.to_multiset(),
        ensures
            self.eval_spec(base, s1, s2) == self.eval_spec(base, t1, t2),
    ;
}

/// A pipeline over 3 modifier categories.
pub trait Pipeline3<Marker: StatMarker, M1: Modifier, M2: Modifier, M3: Modifier>: Sized {
    /// The value the pipeline computes from the base and the collections.
    spec fn eval_spec(self, base: Marker::Raw, s1: Seq<M1>, s2: Seq<M2>, s3: Seq<M3>) -> Marker::Raw;

    /// Computes the pipeline.
    fn eval(&self, base: Marker::Raw, m1: &Vec<M1>, m2: &Vec<M2>, m3: &Vec<M3>) -> (r: Marker::Raw)
        ensures
            r == self.eval_spec(base, m1@, m2@, m3@),
    ;

    /// The result never depends on the order the modifiers are stored in.
    proof fn lemma_eval_permutation(self, base: Marker::Raw, s1: Seq<M1>, s2: Seq<M2>, s3: Seq<M3>, t1: Seq<M1>, t2: Seq<M2>, t3: Seq<M3>)
        requires
            s1.to_multiset() == t1.to_multiset(),
            s2.to_multiset() == t2.to_multiset(),
            s3.to_multiset() == t3.to_multiset(),
        ensures
            self.eval_spec(base, s1, s2, s3) == self.eval_spec(base, t1, t2, t3),
    ;
}

/// A pipeline over 4 modifier categories.
pub trait Pipeline4<Marker: StatMarker, M1: Modifier, M2: Modifier, M3: Modifier, M4: Modifier>: Sized {
    /// The value the pipeline computes from the base and the collections.
    spec fn eval_spec(self, base: Marker::Raw, s1: Seq<M1>, s2: Seq<M2>, s3: Seq<M3>, s4: Seq<M4>) -> Marker::Raw;

    /// Computes the pipeline.
    fn eval(&self, base: Marker::Raw, m1: &Vec<M1>, m2: &Vec<M2>, m3: &Vec<M3>, m4: &Vec<M4>) -> (r: Marker::Raw)
        ensures
            r == self.eval_spec(base, m1@, m2@, m3@, m4@),
    ;

    /// The result never depends on the order the modifiers are stored in.
    proof fn lemma_eval_permutation(self, base: Marker::Raw, s1: Seq<M1>, s2: Seq<M2>, s3: Seq<M3>, s4: Seq<M4>, t1: Seq<M1>, t2: Seq<M2>, t3: Seq<M3>, t4: Seq<M4>)
        requires
            s1.to_multiset() == t1.to_multiset(),
            s2.to_multiset() == t2.to_multiset(),
            s3.to_multiset() == t3.to_multiset(),
            s4.to_multiset() == t4.to_multiset(),
        ensures
            self.eval_spec(base, s1, s2, s3, s4) == self.eval_spec(base, t1, t2, t3, t4),
    ;
}

/// A pipeline over 5 modifier categories.
pub trait Pipeline5<Marker: StatMarker, M1: Modifier, M2: Modifier, M3: Modifier, M4: Modifier, M5: Modifier>: Sized {
    /// The value the pipeline computes from the base and the collections.
    spec fn eval_spec(self, base: Marker::Raw, s1: Seq<M1>, s2: Seq<M2>, s3: Seq<M3>, s4: Seq<M4>, s5: Seq<M5>) -> Marker::Raw;

    /// Computes the pipeline.
    fn eval(&self, base: Marker::Raw, m1: &Vec<M1>, m2: &Vec<M2>, m3: &Vec<M3>, m4: &Vec<M4>, m5: &Vec<M5>) -> (r: Marker::Raw)
        ensures
            r == self.eval_spec(base, m1@, m2@, m3@, m4@, m5@),
    ;

    /// The result never depends on the order the modifiers are stored in.
    proof fn lemma_eval_permutation(self, base: Marker::Raw, s1: Seq<M1>, s2: Seq<M2>, s3: Seq<M3>, s4: Seq<M4>, s5: Seq<M5>, t1: Seq<M1>, t2: Seq<M2>, t3: Seq<M3>, t4: Seq<M4>, t5: Seq<M5>)
        requires
            s1.to_multiset() == t1.to_multiset(),
            s2.to_multiset() == t2.to_multiset(),
            s3.to_multiset() == t3.to_multiset(),
            s4.to_multiset() == t4.to_multiset(),
            s5.to_multiset() == t5.to_multiset(),
        ensures
            self.eval_spec(base, s1, s2, s3, s4, s5) == self.eval_spec(base, t1, t2, t3, t4, t5),
    ;
}

/// A pipeline over 6 modifier categories.
pub trait Pipeline6<Marker: StatMarker, M1: Modifier, M2: Modifier, M3: Modifier, M4: Modifier, M5: Modifier, M6: Modifier>: Sized {
    /// The value the pipeline computes from the base and the collections.
    spec fn eval_spec(self, base: Marker::Raw, s1: Seq<M1>, s2: Seq<M2>, s3: Seq<M3>, s4: Seq<M4>, s5: Seq<M5>, s6: Seq<M6>) -> Marker::Raw;

    /// Computes the pipeline.
    fn eval(&self, base: Marker::Raw, m1: &Vec<M1>, m2: &Vec<M2>, m3: &Vec<M3>, m4: &Vec<M4>, m5: &Vec<M5>, m6: &Vec<M6>) -> (r: Marker::Raw)
        ensures
            r == self.eval_spec(base, m1@, m2@, m3@, m4@, m5@, m6@),
    ;

    /// The result never depends on the order the modifiers are stored in.
    proof fn lemma_eval_permutation(self, base: Marker::Raw, s1: Seq<M1>, s2: Seq<M2>, s3: Seq<M3>, s4: Seq<M4>, s5: Seq<M5>, s6: Seq<M6>, t1: Seq<M1>, t2: Seq<M2>, t3: Seq<M3>, t4: Seq<M4>, t5: Seq<M5>, t6: Seq<M6>)
        requires
            s1.to_multiset() == t1.to_multiset(),
            s2.to_multiset() == t2.to_multiset(),
            s3.to_multiset() == t3.to_multiset(),
            s4.to_multiset() == t4.to_multiset(),
            s5.to_multiset() == t5.to_multiset(),
            s6.to_multiset() == t6.to_multiset(),
        ensures
            self.eval_spec(base, s1, s2, s3, s4, s5, s6) == self.eval_spec(base, t1, t2, t3, t4, t5, t6),
    ;
}

/// A pipeline over 7 modifier categories.
pub trait Pipeline7<Marker: StatMarker, M1: Modifier, M2: Modifier, M3: Modifier, M4: Modifier, M5: Modifier, M6: Modifier, M7: Modifier>: Sized {
    /// The value the pipeline computes from the base and the collections.
    spec fn eval_spec(self, base: Marker::Raw, s1: Seq<M1>, s2: Seq<M2>, s3: Seq<M3>, s4: Seq<M4>, s5: Seq<M5>, s6: Seq<M6>, s7: Seq<M7>) -> Marker::Raw;

    /// Computes the pipeline.
    fn eval(&self, base: Marker::Raw, m1: &Vec<M1>, m2: &Vec<M2>, m3: &Vec<M3>, m4: &Vec<M4>, m5: &Vec<M5>, m6: &Vec<M6>, m7: &Vec<M7>) -> (r: Marker::Raw)
        ensures
            r == self.eval_spec(base, m1@, m2@, m3@, m4@, m5@, m6@, m7@),
    ;

    /// The result never depends on the order the modifiers are stored in.
    proof fn lemma_eval_permutation(self, base: Marker::Raw, s1: Seq<M1>, s2: Seq<M2>, s3: Seq<M3>, s4: Seq<M4>, s5: Seq<M5>, s6: Seq<M6>, s7: Seq<M7>, t1: Seq<M1>, t2: Seq<M2>, t3: Seq<M3>, t4: Seq<M4>, t5: Seq<M5>, t6: Seq<M6>, t7: Seq<M7>)
        requires
            s1.to_multiset() == t1.to_multiset(),
            s2.to_multiset() == t2.to_multiset(),
            s3.to_multiset() == t3.to_multiset(),
            s4.to_multiset() == t4.to_multiset(),
            s5.to_multiset() == t5.to_multiset(),
            s6.to_multiset() == t6.to_multiset(),
            s7.to_multiset() == t7.to_multiset(),
        ensures
            self.eval_spec(base, s1, s2, s3, s4, s5, s6, s7) == self.eval_spec(base, t1, t2, t3, t4, t5, t6, t7),
    ;
}

/// A pipeline over 8 modifier categories.
pub trait Pipeline8<Marker: StatMarker, M1: Modifier, M2: Modifier, M3: Modifier, M4: Modifier, M5: Modifier, M6: Modifier, M7: Modifier, M8: Modifier>: Sized {
    /// The value the pipeline computes from the base and the collections.
    spec fn eval_spec(self, base: Marker::Raw, s1: Seq<M1>, s2: Seq<M2>, s3: Seq<M3>, s4: Seq<M4>, s5: Seq<M5>, s6: Seq<M6>, s7: Seq<M7>, s8: Seq<M8>) -> Marker::Raw;

    /// Computes the pipeline.
    fn eval(&self, base: Marker::Raw, m1: &Vec<M1>, m2: &Vec<M2>, m3: &Vec<M3>, m4: &Vec<M4>, m5: &Vec<M5>, m6: &Vec<M6>, m7: &Vec<M7>, m8: &Vec<M8>) -> (r: Marker::Raw)
        ensures
            r == self.eval_spec(base, m1@, m2@, m3@, m4@, m5@, m6@, m7@, m8@),
    ;

    /// The result never depends on the order the modifiers are stored in.
    proof fn lemma_eval_permutation(self, base: Marker::Raw, s1: Seq<M1>, s2: Seq<M2>, s3: Seq<M3>, s4: Seq<M4>, s5: Seq<M5>, s6: Seq<M6>, s7: Seq<M7>, s8: Seq<M8>, t1: Seq<M1>, t2: Seq<M2>, t3: Seq<M3>, t4: Seq<M4>, t5: Seq<M5>, t6: Seq<M6>, t7: Seq<M7>, t8: Seq<M8>)
        requires
            s1.to_multiset() == t1.to_multiset(),
            s2.to_multiset() == t2.to_multiset(),
            s3.to_multiset() == t3.to_multiset(),
            s4.to_multiset() == t4.to_multiset(),
            s5.to_multiset() == t5.to_multiset(),
            s6.to_multiset() == t6.to_multiset(),
            s7.to_multiset() == t7.to_multiset(),
            s8.to_multiset() == t8.to_multiset(),
        ensures
            self.eval_spec(base, s1, s2, s3, s4, s5, s6, s7, s8) == self.eval_spec(base, t1, t2, t3, t4, t5, t6, t7, t8),
    ;
}

/// A plain summing pipeline: the base plus each slot's combined
/// value, added left to right.
#[derive(Clone, Copy)]
pub struct SumPipeline1;

impl<Marker, M1> Pipeline1<Marker, M1> for SumPipeline1 where
    Marker: StatMarker,
    M1: Modifier<Target = Marker>,
 {
    open spec fn eval_spec(self, base: Marker::Raw, s1: Seq<M1>) -> Marker::Raw {
        base.add_spec(M1::combine_spec(s1))
    }

    fn eval(&self, base: Marker::Raw, m1: &Vec<M1>) -> (r: Marker::Raw) {
        base.raw_add(M1::combine(m1))
    }

    proof fn lemma_eval_permutation(self, base: Marker::Raw, s1: Seq<M1>, t1: Seq<M1>) {
        M1::lemma_combine_permutation(s1, t1);
    }
}

/// A plain summing pipeline: the base plus each slots' combined
/// value, added left to right.
#[derive(Clone, Copy)]
pub struct SumPipeline2;

impl<Marker, M1, M2> Pipeline2<Marker, M1, M2> for SumPipeline2 where
    Marker: StatMarker,
    M1: Modifier<Target = Marker>,
    M2: Modifier<Target = Marker>,
 {
    open spec fn eval_spec(self, base: Marker::Raw, s1: Seq<M1>, s2: Seq<M2>) -> Marker::Raw {
        base.add_spec(M1::combine_spec(s1)).add_spec(M2::combine_spec(s2))
    }

    fn eval(&self, base: Marker::Raw, m1: &Vec<M1>, m2: &Vec<M2>) -> (r: Marker::Raw) {
        base.raw_add(M1::combine(m1)).raw_add(M2::combine(m2))
    }

    proof fn lemma_eval_permutation(self, base: Marker::Raw, s1: Seq<M1>, s2: Seq<M2>, t1: Seq<M1>, t2: Seq<M2>) {
        M1::lemma_combine_permutation(s1, t1);
        M2::lemma_combine_permutation(s2, t2);
    }
}

/// A plain summing pipeline: the base plus each slots' combined
/// value, added left to right.
#[derive(Clone, Copy)]
pub struct SumPipeline3;

impl<Marker, M1, M2, M3> Pipeline3<Marker, M1, M2, M3> for SumPipeline3 where
    Marker: StatMarker,
    M1: Modifier<Target = Marker>,
    M2: Modifier<Target = Marker>,
    M3: Modifier<Target = Marker>,
 {
    open spec fn eval_spec(self, base: Marker::Raw, s1: Seq<M1>, s2: Seq<M2>, s3: Seq<M3>) -> Marker::Raw {
        base.add_spec(M1::combine_spec(s1)).add_spec(M2::combine_spec(s2)).add_spec(M3::combine_spec(s3))
    }

    fn eval(&self, base: Marker::Raw, m1: &Vec<M1>, m2: &Vec<M2>, m3: &Vec<M3>) -> (r: Marker::Raw) {
        base.raw_add(M1::combine(m1)).raw_add(M2::combine(m2)).raw_add(M3::combine(m3))
    }

    proof fn lemma_eval_permutation(self, base: Marker::Raw, s1: Seq<M1>, s2: Seq<M2>, s3: Seq<M3>, t1: Seq<M1>, t2: Seq<M2>, t3: Seq<M3>) {
        M1::lemma_combine_permutation(s1, t1);
        M2::lemma_combine_permutation(s2, t2);
        M3::lemma_combine_permutation(s3, t3);
    }
}

/// A plain summing pipeline: the base plus each slots' combined
/// value, added left to right.
#[derive(Clone, Copy)]
pub struct SumPipeline4;

impl<Marker, M1, M2, M3, M4> Pipeline4<Marker, M1, M2, M3, M4> for SumPipeline4 where
    Marker: StatMarker,
    M1: Modifier<Target = Marker>,
    M2: Modifier<Target = Marker>,
    M3: Modifier<Target = Marker>,
    M4: Modifier<Target = Marker>,
 {
    open spec fn eval_spec(self, base: Marker::Raw, s1: Seq<M1>, s2: Seq<M2>, s3: Seq<M3>, s4: Seq<M4>) -> Marker::Raw {
        base.add_spec(M1::combine_spec(s1)).add_spec(M2::combine_spec(s2)).add_spec(M3::combine_spec(s3)).add_spec(M4::combine_spec(s4))
    }

    fn eval(&self, base: Marker::Raw, m1: &Vec<M1>, m2: &Vec<M2>, m3: &Vec<M3>, m4: &Vec<M4>) -> (r: Marker::Raw) {
        base.raw_add(M1::combine(m1)).raw_add(M2::combine(m2)).raw_add(M3::combine(m3)).raw_add(M4::combine(m4))
    }

    proof fn lemma_eval_permutation(self, base: Marker::Raw, s1: Seq<M1>, s2: Seq<M2>, s3: Seq<M3>, s4: Seq<M4>, t1: Seq<M1>, t2: Seq<M2>, t3: Seq<M3>, t4: Seq<M4>) {
        M1::lemma_combine_permutation(s1, t1);
        M2::lemma_combine_permutation(s2, t2);
        M3::lemma_combine_permutation(s3, t3);
        M4::lemma_combine_permutation(s4, t4);
    }
}

/// A plain summing pipeline: the base plus each slots' combined
/// value, added left to right.
#[derive(Clone, Copy)]
pub struct SumPipeline5;

impl<Marker, M1, M2, M3, M4, M5> Pipeline5<Marker, M1, M2, M3, M4, M5> for SumPipeline5 where
    Marker: StatMarker,
    M1: Modifier<Target = Marker>,
    M2: Modifier<Target = Marker>,
    M3: Modifier<Target = Marker>,
    M4: Modifier<Target = Marker>,
    M5: Modifier<Target = Marker>,
 {
    open spec fn eval_spec(self, base: Marker::Raw, s1: Seq<M1>, s2: Seq<M2>, s3: Seq<M3>, s4: Seq<M4>, s5: Seq<M5>) -> Marker::Raw {
        base.add_spec(M1::combine_spec(s1)).add_spec(M2::combine_spec(s2)).add_spec(M3::combine_spec(s3)).add_spec(M4::combine_spec(s4)).add_spec(M5::combine_spec(s5))
    }

    fn eval(&self, base: Marker::Raw, m1: &Vec<M1>, m2: &Vec<M2>, m3: &Vec<M3>, m4: &Vec<M4>, m5: &Vec<M5>) -> (r: Marker::Raw) {
        base.raw_add(M1::combine(m1)).raw_add(M2::combine(m2)).raw_add(M3::combine(m3)).raw_add(M4::combine(m4)).raw_add(M5::combine(m5))
    }

    proof fn lemma_eval_permutation(self, base: Marker::Raw, s1: Seq<M1>, s2: Seq<M2>, s3: Seq<M3>, s4: Seq<M4>, s5: Seq<M5>, t1: Seq<M1>, t2: Seq<M2>, t3: Seq<M3>, t4: Seq<M4>, t5: Seq<M5>) {
        M1::lemma_combine_permutation(s1, t1);
        M2::lemma_combine_permutation(s2, t2);
        M3::lemma_combine_permutation(s3, t3);
        M4::lemma_combine_permutation(s4, t4);
        M5::lemma_combine_permutation(s5, t5);
    }
}

/// A plain summing pipeline: the base plus each slots' combined
/// value, added left to right.
#[derive(Clone, Copy)]
pub struct SumPipeline6;

impl<Marker, M1, M2, M3, M4, M5, M6> Pipeline6<Marker, M1, M2, M3, M4, M5, M6> for SumPipeline6 where
    Marker: StatMarker,
    M1: Modifier<Target = Marker>,
    M2: Modifier<Target = Marker>,
    M3: Modifier<Target = Marker>,
    M4: Modifier<Target = Marker>,
    M5: Modifier<Target = Marker>,
    M6: Modifier<Target = Marker>,
 {
    open spec fn eval_spec(self, base: Marker::Raw, s1: Seq<M1>, s2: Seq<M2>, s3: Seq<M3>, s4: Seq<M4>, s5: Seq<M5>, s6: Seq<M6>) -> Marker::Raw {
        base.add_spec(M1::combine_spec(s1)).add_spec(M2::combine_spec(s2)).add_spec(M3::combine_spec(s3)).add_spec(M4::combine_spec(s4)).add_spec(M5::combine_spec(s5)).add_spec(M6::combine_spec(s6))
    }

    fn eval(&self, base: Marker::Raw, m1: &Vec<M1>, m2: &Vec<M2>, m3: &Vec<M3>, m4: &Vec<M4>, m5: &Vec<M5>, m6: &Vec<M6>) -> (r: Marker::Raw) {
        base.raw_add(M1::combine(m1)).raw_add(M2::combine(m2)).raw_add(M3::combine(m3)).raw_add(M4::combine(m4)).raw_add(M5::combine(m5)).raw_add(M6::combine(m6))
    }

    proof fn lemma_eval_permutation(self, base: Marker::Raw, s1: Seq<M1>, s2: Seq<M2>, s3: Seq<M3>, s4: Seq<M4>, s5: Seq<M5>, s6: Seq<M6>, t1: Seq<M1>, t2: Seq<M2>, t3: Seq<M3>, t4: Seq<M4>, t5: Seq<M5>, t6: Seq<M6>) {
        M1::lemma_combine_permutation(s1, t1);
        M2::lemma_combine_permutation(s2, t2);
        M3::lemma_combine_permutation(s3, t3);
        M4::lemma_combine_permutation(s4, t4);
        M5::lemma_combine_permutation(s5, t5);
        M6::lemma_combine_permutation(s6, t6);
    }
}

/// A plain summing pipeline: the base plus each slots' combined
/// value, added left to right.
#[derive(Clone, Copy)]
pub struct SumPipeline7;

impl<Marker, M1, M2, M3, M4, M5, M6, M7> Pipeline7<Marker, M1, M2, M3, M4, M5, M6, M7> for SumPipeline7 where
    Marker: StatMarker,
    M1: Modifier<Target = Marker>,
    M2: Modifier<Target = Marker>,
    M3: Modifier<Target = Marker>,
    M4: Modifier<Target = Marker>,
    M5: Modifier<Target = Marker>,
    M6: Modifier<Target = Marker>,
    M7: Modifier<Target = Marker>,
 {
    open spec fn eval_spec(self, base: Marker::Raw, s1: Seq<M1>, s2: Seq<M2>, s3: Seq<M3>, s4: Seq<M4>, s5: Seq<M5>, s6: Seq<M6>, s7: Seq<M7>) -> Marker::Raw {
        base.add_spec(M1::combine_spec(s1)).add_spec(M2::combine_spec(s2)).add_spec(M3::combine_spec(s3)).add_spec(M4::combine_spec(s4)).add_spec(M5::combine_spec(s5)).add_spec(M6::combine_spec(s6)).add_spec(M7::combine_spec(s7))
    }

    fn eval(&self, base: Marker::Raw, m1: &Vec<M1>, m2: &Vec<M2>, m3: &Vec<M3>, m4: &Vec<M4>, m5: &Vec<M5>, m6: &Vec<M6>, m7: &Vec<M7>) -> (r: Marker::Raw) {
        base.raw_add(M1::combine(m1)).raw_add(M2::combine(m2)).raw_add(M3::combine(m3)).raw_add(M4::combine(m4)).raw_add(M5::combine(m5)).raw_add(M6::combine(m6)).raw_add(M7::combine(m7))
    }

    proof fn lemma_eval_permutation(self, base: Marker::Raw, s1: Seq<M1>, s2: Seq<M2>, s3: Seq<M3>, s4: Seq<M4>, s5: Seq<M5>, s6: Seq<M6>, s7: Seq<M7>, t1: Seq<M1>, t2: Seq<M2>, t3: Seq<M3>, t4: Seq<M4>, t5: Seq<M5>, t6: Seq<M6>, t7: Seq<M7>) {
        M1::lemma_combine_permutation(s1, t1);
        M2::lemma_combine_permutation(s2, t2);
        M3::lemma_combine_permutation(s3, t3);
        M4::lemma_combine_permutation(s4, t4);
        M5::lemma_combine_permutation(s5, t5);
        M6::lemma_combine_permutation(s6, t6);
        M7::lemma_combine_permutation(s7, t7);
    }
}

/// A plain summing pipeline: the base plus each slots' combined
/// value, added left to right.
#[derive(Clone, Copy)]
pub struct SumPipeline8;

impl<Marker, M1, M2, M3, M4, M5, M6, M7, M8> Pipeline8<Marker, M1, M2, M3, M4, M5, M6, M7, M8> for SumPipeline8 where
    Marker: StatMarker,
    M1: Modifier<Target = Marker>,
    M2: Modifier<Target = Marker>,
    M3: Modifier<Target = Marker>,
    M4: Modifier<Target = Marker>,
    M5: Modifier<Target = Marker>,
    M6: Modifier<Target = Marker>,
    M7: Modifier<Target = Marker>,
    M8: Modifier<Target = Marker>,
 {
    open spec fn eval_spec(self, base: Marker::Raw, s1: Seq<M1>, s2: Seq<M2>, s3: Seq<M3>, s4: Seq<M4>, s5: Seq<M5>, s6: Seq<M6>, s7: Seq<M7>, s8: Seq<M8>) -> Marker::Raw {
        base.add_spec(M1::combine_spec(s1)).add_spec(M2::combine_spec(s2)).add_spec(M3::combine_spec(s3)).add_spec(M4::combine_spec(s4)).add_spec(M5::combine_spec(s5)).add_spec(M6::combine_spec(s6)).add_spec(M7::combine_spec(s7)).add_spec(M8::combine_spec(s8))
    }

    fn eval(&self, base: Marker::Raw, m1: &Vec<M1>, m2: &Vec<M2>, m3: &Vec<M3>, m4: &Vec<M4>, m5: &Vec<M5>, m6: &Vec<M6>, m7: &Vec<M7>, m8: &Vec<M8>) -> (r: Marker::Raw) {
        base.raw_add(M1::combine(m1)).raw_add(M2::combine(m2)).raw_add(M3::combine(m3)).raw_add(M4::combine(m4)).raw_add(M5::combine(m5)).raw_add(M6::combine(m6)).raw_add(M7::combine(m7)).raw_add(M8::combine(m8))
    }

    proof fn lemma_eval_permutation(self, base: Marker::Raw, s1: Seq<M1>, s2: Seq<M2>, s3: Seq<M3>, s4: Seq<M4>, s5: Seq<M5>, s6: Seq<M6>, s7: Seq<M7>, s8: Seq<M8>, t1: Seq<M1>, t2: Seq<M2>, t3: Seq<M3>, t4: Seq<M4>, t5: Seq<M5>, t6: Seq<M6>, t7: Seq<M7>, t8: Seq<M8>) {
        M1::lemma_combine_permutation(s1, t1);
        M2::lemma_combine_permutation(s2, t2);
        M3::lemma_combine_permutation(s3, t3);
        M4::lemma_combine_permutation(s4, t4);
        M5::lemma_combine_permutation(s5, t5);
        M6::lemma_combine_permutation(s6, t6);
        M7::lemma_combine_permutation(s7, t7);
        M8::lemma_combine_permutation(s8, t8);
    }
}

/// The canonical five-slot formula. With the slots bound, in order, to a
/// flat, an additive, a post-additive, a multiplicative and a
/// post-multiplicative category, it computes
/// `((base + combine(flat)) * combine(additive) + combine(post_additive))
/// * combine(multiplicative) + combine(post_multiplicative)`,
/// with exactly this grouping.
#[derive(Clone, Copy)]
pub struct StandardPipeline;

impl<Marker, M1, M2, M3, M4, M5> Pipeline5<Marker, M1, M2, M3, M4, M5> for StandardPipeline where
    Marker: StatMarker,
    M1: Modifier<Target = Marker>,
    M2: Modifier<Target = Marker>,
    M3: Modifier<Target = Marker>,
    M4: Modifier<Target = Marker>,
    M5: Modifier<Target = Marker>,
 {
    open spec fn eval_spec(
        self,
        base: Marker::Raw,
        s1: Seq<M1>,
        s2: Seq<M2>,
        s3: Seq<M3>,
        s4: Seq<M4>,
        s5: Seq<M5>,
    ) -> Marker::Raw {
        base.add_spec(M1::combine_spec(s1)).mul_spec(M2::combine_spec(s2)).add_spec(
            M3::combine_spec(s3),
        ).mul_spec(M4::combine_spec(s4)).add_spec(M5::combine_spec(s5))
    }

    fn eval(
        &self,
        base: Marker::Raw,
        m1: &Vec<M1>,
        m2: &Vec<M2>,
        m3: &Vec<M3>,
        m4: &Vec<M4>,
        m5: &Vec<M5>,
    ) -> (r: Marker::Raw) {
        base.raw_add(M1::combine(m1)).raw_mul(M2::combine(m2)).raw_add(M3::combine(m3)).raw_mul(
            M4::combine(m4),
        ).raw_add(M5::combine(m5))
    }

    proof fn lemma_eval_permutation(
        self,
        base: Marker::Raw,
        s1: Seq<M1>,
        s2: Seq<M2>,
        s3: Seq<M3>,
        s4: Seq<M4>,
        s5: Seq<M5>,
        t1: Seq<M1>,
        t2: Seq<M2>,
        t3: Seq<M3>,
        t4: Seq<M4>,
        t5: Seq<M5>,
    ) {
        M1::lemma_combine_permutation(s1, t1);
        M2::lemma_combine_permutation(s2, t2);
        M3::lemma_combine_permutation(s3, t3);
        M4::lemma_combine_permutation(s4, t4);
        M5::lemma_combine_permutation(s5, t5);
    }
}

/// With every slot empty, the canonical formula returns the base: each
/// sum slot combines to 0, each product slot combines to 1, and the
/// identities cancel stage by stage.
pub proof fn lemma_standard_pipeline_empty<Marker, M1, M2, M3, M4, M5>(base: Marker::Raw) where
    Marker: StatMarker,
    M1: Modifier<Target = Marker>,
    M2: Modifier<Target = Marker>,
    M3: Modifier<Target = Marker>,
    M4: Modifier<Target = Marker>,
    M5: Modifier<Target = Marker>,

    requires
        M1::combine_spec(Seq::<M1>::empty()) == <Marker::Raw as RawValue>::zero_spec(),
        M2::combine_spec(Seq::<M2>::empty()) == <Marker::Raw as RawValue>::one_spec(),
        M3::combine_spec(Seq::<M3>::empty()) == <Marker::Raw as RawValue>::zero_spec(),
        M4::combine_spec(Seq::<M4>::empty()) == <Marker::Raw as RawValue>::one_spec(),
        M5::combine_spec(Seq::<M5>::empty()) == <Marker::Raw as RawValue>::zero_spec(),
    ensures
        <StandardPipeline as Pipeline5<Marker, M1, M2, M3, M4, M5>>::eval_spec(
            StandardPipeline,
            base,
            Seq::<M1>::empty(),
            Seq::<M2>::empty(),
            Seq::<M3>::empty(),
            Seq::<M4>::empty(),
            Seq::<M5>::empty(),
        ) == base,
{
    <Marker::Raw as RawValue>::lemma_add_zero(base);
    <Marker::Raw as RawValue>::lemma_mul_one(base);
}

} // verus!

//! Behaviour of the plain aggregator family: applying, removing,
//! membership, views, and the order-independence and round-trip
//! properties.

use stat_pipeline::modifier::Modifier;
use stat_pipeline::modifier::standard::{Flat, Multiplicative};
use stat_pipeline::pipeline::{SumPipeline1, SumPipeline2, SumPipeline8};
use stat_pipeline::raw::NoMetadata;
use stat_pipeline::stat::{Stat1, Stat2, Stat8, StatMarker};

#[derive(Clone, Copy)]
struct DummyMarker;

impl StatMarker for DummyMarker {
    type Raw = u64;
}

type FlatMod = Flat<DummyMarker, u64, NoMetadata>;
type MulMod = Multiplicative<DummyMarker, u64, NoMetadata>;

#[test]
fn stat_test() {
    let mut stat = Stat1::<DummyMarker, FlatMod, SumPipeline1>::new(1, SumPipeline1);
    stat.apply_m1(FlatMod::from_raw(1));
    stat.apply_m1(FlatMod::from_raw(2));
    stat.apply_m1(FlatMod::from_raw(3));

    assert_eq!(7, stat.get());
}

#[test]
fn base_is_immutable() {
    let mut stat = Stat1::<DummyMarker, FlatMod, SumPipeline1>::new(9, SumPipeline1);
    assert_eq!(9, stat.base());
    stat.apply_m1(FlatMod::from_raw(4));
    stat.remove_m1(FlatMod::from_raw(4));
    assert_eq!(9, stat.base());
}

#[test]
fn empty_aggregator_returns_base() {
    let stat = Stat1::<DummyMarker, FlatMod, SumPipeline1>::new(37, SumPipeline1);
    assert_eq!(37, stat.get());
}

#[test]
fn order_of_application_is_irrelevant() {
    let mut ab = Stat2::<DummyMarker, FlatMod, MulMod, SumPipeline2>::new(10, SumPipeline2);
    ab.apply_m1(FlatMod::from_raw(3));
    ab.apply_m1(FlatMod::from_raw(5));
    ab.apply_m2(MulMod::from_raw(2));
    ab.apply_m2(MulMod::from_raw(7));

    let mut ba = Stat2::<DummyMarker, FlatMod, MulMod, SumPipeline2>::new(10, SumPipeline2);
    ba.apply_m2(MulMod::from_raw(7));
    ba.apply_m2(MulMod::from_raw(2));
    ba.apply_m1(FlatMod::from_raw(5));
    ba.apply_m1(FlatMod::from_raw(3));

    assert_eq!(ab.get(), ba.get());
    // base + (3 + 5) + (2 * 7) with the summing two-slot pipeline
    assert_eq!(32, ab.get());
}

#[test]
fn remove_of_absent_modifier_is_a_no_op() {
    let mut stat = Stat1::<DummyMarker, FlatMod, SumPipeline1>::new(1, SumPipeline1);
    stat.apply_m1(FlatMod::from_raw(2));
    let before = stat.get();
    stat.remove_m1(FlatMod::from_raw(99));
    assert_eq!(before, stat.get());
    assert_eq!(1, stat.m1().len());
}

#[test]
fn apply_then_remove_round_trips() {
    let mut stat = Stat1::<DummyMarker, FlatMod, SumPipeline1>::new(5, SumPipeline1);
    stat.apply_m1(FlatMod::from_raw(2));
    let value_before = stat.get();
    let has_before = stat.has_m1(FlatMod::from_raw(8));

    stat.apply_m1(FlatMod::from_raw(8));
    assert!(stat.has_m1(FlatMod::from_raw(8)));
    stat.remove_m1(FlatMod::from_raw(8));

    assert_eq!(value_before, stat.get());
    assert_eq!(has_before, stat.has_m1(FlatMod::from_raw(8)));
}

#[test]
fn duplicates_coexist_and_both_contribute() {
    let mut stat = Stat1::<DummyMarker, FlatMod, SumPipeline1>::new(0, SumPipeline1);
    stat.apply_m1(FlatMod::from_raw(6));
    stat.apply_m1(FlatMod::from_raw(6));
    assert_eq!(12, stat.get());
    stat.remove_m1(FlatMod::from_raw(6));
    assert_eq!(6, stat.get());
    assert!(stat.has_m1(FlatMod::from_raw(6)));
}

#[test]
fn removal_swaps_the_last_element_into_the_hole() {
    let mut stat = Stat1::<DummyMarker, FlatMod, SumPipeline1>::new(0, SumPipeline1);
    stat.apply_m1(FlatMod::from_raw(1));
    stat.apply_m1(FlatMod::from_raw(2));
    stat.apply_m1(FlatMod::from_raw(3));
    stat.remove_m1(FlatMod::from_raw(1));

    let raws: Vec<u64> = stat.m1().iter().map(|m| m.raw()).collect();
    assert_eq!(vec![3, 2], raws);
}

#[test]
fn eight_slot_aggregator() {
    let mut stat =
        Stat8::<DummyMarker, FlatMod, FlatMod, FlatMod, FlatMod, FlatMod, FlatMod, FlatMod, FlatMod, SumPipeline8>::new(
            100,
            SumPipeline8,
        );
    stat.apply_m1(FlatMod::from_raw(1));
    stat.apply_m2(FlatMod::from_raw(2));
    stat.apply_m3(FlatMod::from_raw(3));
    stat.apply_m4(FlatMod::from_raw(4));
    stat.apply_m5(FlatMod::from_raw(5));
    stat.apply_m6(FlatMod::from_raw(6));
    stat.apply_m7(FlatMod::from_raw(7));
    stat.apply_m8(FlatMod::from_raw(8));
    assert_eq!(136, stat.get());

    assert!(stat.has_m8(FlatMod::from_raw(8)));
    stat.remove_m8(FlatMod::from_raw(8));
    assert!(!stat.has_m8(FlatMod::from_raw(8)));
    assert_eq!(128, stat.get());
}

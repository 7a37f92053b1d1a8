//! The canonical five-slot stats, exclusive-owner and shared, in both
//! raw-value widths, including the worked pipeline scenario and the
//! builder surface.

use stat_pipeline::modifier::Modifier;
use stat_pipeline::modifier::standard::{MidFlat, PostFlat, PreFlat};
use stat_pipeline::non_send::Stat3NS;
use stat_pipeline::non_send::standard::CompactStandardStatNS;
use stat_pipeline::pipeline::SumPipeline3;
use stat_pipeline::prelude::{
    Additive, Flat, Multiplicative, PostAdditive, PostMultiplicative, StandardStatNS,
    StandardStatS,
};
use stat_pipeline::raw::NoMetadata;
use stat_pipeline::stat::StatMarker;

#[derive(Clone, Copy)]
struct DummyMarker;

impl StatMarker for DummyMarker {
    type Raw = u64;
}

#[derive(Clone, Copy)]
struct NarrowMarker;

impl StatMarker for NarrowMarker {
    type Raw = u32;
}

#[test]
fn standard_test() {
    let mut stat = StandardStatNS::<DummyMarker, u8>::new(0);

    stat.apply_flat(Flat::from_raw(1).set_metadata(Some(1u8)).build());
    stat.apply_flat(Flat::from_raw(1).set_metadata(Some(2u8)).build());
    stat.apply_additive(Additive::from_raw(1).set_metadata(Some(3u8)).build());
    stat.apply_additive(Additive::from_raw(1).set_metadata(Some(4u8)).build());
    stat.apply_post_add(PostAdditive::from_raw(1).set_metadata(Some(5u8)).build());
    stat.apply_post_add(PostAdditive::from_raw(1).set_metadata(Some(6u8)).build());
    stat.apply_multiplicative(Multiplicative::from_raw(1).set_metadata(Some(7u8)).build());
    stat.apply_multiplicative(Multiplicative::from_raw(1).set_metadata(Some(8u8)).build());
    stat.apply_post_mul(PostMultiplicative::from_raw(1).set_metadata(Some(9u8)).build());
    stat.apply_post_mul(PostMultiplicative::from_raw(1).set_metadata(Some(10u8)).build());

    assert_eq!(10, stat.get());

    for f in stat.flat_modifiers().iter() {
        println!("{}: +{}", f.metadata().unwrap(), f.raw());
    }
}

#[test]
fn test_f32() {
    let stat = StandardStatS::<NarrowMarker, u8>::new(0);

    stat.apply_flat(Flat::from_raw(1).set_metadata(Some(1u8)).build());
    stat.apply_flat(Flat::from_raw(1).set_metadata(Some(2u8)).build());
    stat.apply_additive(Additive::from_raw(1).set_metadata(Some(3u8)).build());
    stat.apply_additive(Additive::from_raw(1).set_metadata(Some(4u8)).build());
    stat.apply_post_add(PostAdditive::from_raw(1).set_metadata(Some(5u8)).build());
    stat.apply_post_add(PostAdditive::from_raw(1).set_metadata(Some(6u8)).build());
    stat.apply_multiplicative(Multiplicative::from_raw(1).set_metadata(Some(7u8)).build());
    stat.apply_multiplicative(Multiplicative::from_raw(1).set_metadata(Some(8u8)).build());
    stat.apply_post_mul(PostMultiplicative::from_raw(1).set_metadata(Some(9u8)).build());
    stat.apply_post_mul(PostMultiplicative::from_raw(1).set_metadata(Some(10u8)).build());

    assert_eq!(10u32, stat.get());
}

#[test]
fn test_f64() {
    let stat = StandardStatS::<DummyMarker, u8>::new(0);

    stat.apply_flat(Flat::from_raw(1).set_metadata(Some(1u8)).build());
    stat.apply_flat(Flat::from_raw(1).set_metadata(Some(2u8)).build());
    stat.apply_additive(Additive::from_raw(1).set_metadata(Some(3u8)).build());
    stat.apply_additive(Additive::from_raw(1).set_metadata(Some(4u8)).build());
    stat.apply_post_add(PostAdditive::from_raw(1).set_metadata(Some(5u8)).build());
    stat.apply_post_add(PostAdditive::from_raw(1).set_metadata(Some(6u8)).build());
    stat.apply_multiplicative(Multiplicative::from_raw(1).set_metadata(Some(7u8)).build());
    stat.apply_multiplicative(Multiplicative::from_raw(1).set_metadata(Some(8u8)).build());
    stat.apply_post_mul(PostMultiplicative::from_raw(1).set_metadata(Some(9u8)).build());
    stat.apply_post_mul(PostMultiplicative::from_raw(1).set_metadata(Some(10u8)).build());

    assert_eq!(10u64, stat.get());
}

#[test]
fn empty_standard_stat_returns_base() {
    let stat = StandardStatNS::<DummyMarker, u8>::new(42);
    assert_eq!(42, stat.get());
    let shared = StandardStatS::<DummyMarker, u8>::new(42);
    assert_eq!(42, shared.get());
}

#[test]
fn pipeline_stages_group_left_to_right() {
    // ((7 + 3) * (1 + 1) + 4) * 5 + 6 = 126
    let mut stat = StandardStatNS::<DummyMarker, u8>::new(7);
    stat.apply_flat(Flat::from_raw(3));
    stat.apply_additive(Additive::from_raw(1));
    stat.apply_post_add(PostAdditive::from_raw(4));
    stat.apply_multiplicative(Multiplicative::from_raw(5));
    stat.apply_post_mul(PostMultiplicative::from_raw(6));
    assert_eq!(126, stat.get());
}

#[test]
fn metadata_distinguishes_equal_payloads() {
    let mut stat = StandardStatNS::<DummyMarker, u8>::new(0);
    stat.apply_flat(Flat::from_raw(1).set_metadata(Some(1u8)).build());
    stat.apply_flat(Flat::from_raw(1).set_metadata(Some(2u8)).build());

    assert!(stat.has_flat(Flat::from_raw(1).set_metadata(Some(1u8)).build()));
    assert!(!stat.has_flat(Flat::from_raw(1)));

    // Not present: payload matches but metadata differs, so nothing happens.
    stat.remove_flat(Flat::from_raw(1));
    assert_eq!(2, stat.get());

    stat.remove_flat(Flat::from_raw(1).set_metadata(Some(1u8)).build());
    assert_eq!(1, stat.get());
    assert!(!stat.has_flat(Flat::from_raw(1).set_metadata(Some(1u8)).build()));
    assert!(stat.has_flat(Flat::from_raw(1).set_metadata(Some(2u8)).build()));
}

#[test]
fn builder_sets_and_reads_metadata() {
    let plain: Flat<DummyMarker, u64, u8> = Flat::from_raw(5);
    assert_eq!(5, plain.raw());
    assert!(plain.metadata().is_none());

    let tagged = Flat::<DummyMarker, u64, u8>::from_raw(5).set_metadata(Some(9u8)).build();
    assert_eq!(5, tagged.raw());
    assert_eq!(Some(9u8), tagged.metadata());

    let cleared = Flat::<DummyMarker, u64, u8>::from_raw(5)
        .set_metadata(Some(9u8))
        .set_metadata(None)
        .build();
    assert!(cleared.metadata().is_none());
}

#[test]
fn compact_standard_stat() {
    // ((2 + 5) * (1 + 1) + 3) * 3 + 4 = 55
    let mut stat = CompactStandardStatNS::<DummyMarker>::new(2);
    stat.apply_flat(PreFlat::from_raw(5));
    stat.apply_additive(Additive::from_raw(1).set_metadata(Some(NoMetadata)).build());
    stat.apply_post_add(MidFlat::from_raw(3));
    stat.apply_multiplicative(Multiplicative::from_raw(3));
    stat.apply_post_mul(PostFlat::from_raw(4));
    assert_eq!(55, stat.get());

    stat.remove_post_mul(PostFlat::from_raw(4));
    assert_eq!(51, stat.get());
}

#[test]
fn shared_stat_counts_applies_minus_removes() {
    let stat = StandardStatS::<DummyMarker, u8>::new(0);
    for _ in 0..5 {
        stat.apply_flat(Flat::from_raw(1));
    }
    let contributors = stat.flat_modifiers();
    assert_eq!(5, contributors.len());
    assert!(contributors.iter().all(|m| m.raw() == 1));
    for _ in 0..2 {
        stat.remove_flat(Flat::from_raw(1));
    }
    // Five applies and two successful removes leave three contributors.
    assert_eq!(3, stat.get());
    // Further removes beyond the stored occurrences are no-ops.
    for _ in 0..4 {
        stat.remove_flat(Flat::from_raw(1));
    }
    assert_eq!(0, stat.get());
    assert!(!stat.has_flat(Flat::from_raw(1)));
}

#[test]
fn exclusive_owner_wrapper_delegates() {
    type F = Flat<DummyMarker, u64, u8>;
    let mut stat = Stat3NS::<DummyMarker, F, F, F, SumPipeline3>::new(1, SumPipeline3);
    stat.apply_m1(F::from_raw(2));
    stat.apply_m2(F::from_raw(3));
    stat.apply_m3(F::from_raw(4));
    assert_eq!(10, stat.get());
    assert_eq!(1, stat.base());
    assert!(stat.has_m2(F::from_raw(3)));
    stat.remove_m2(F::from_raw(3));
    assert!(!stat.has_m2(F::from_raw(3)));
    assert_eq!(7, stat.get());
}

//! The combine rules of the standard categories: identities, uniform
//! collections (sums become multiples, products become powers), and the
//! wrapping ring arithmetic of the raw bindings.

use stat_pipeline::modifier::Modifier;
use stat_pipeline::modifier::standard::{
    Additive, Flat, MidFlat, Multiplicative, PostAdditive, PostFlat, PostMultiplicative, PreFlat,
};
use stat_pipeline::raw::NoMetadata;
use stat_pipeline::stat::StatMarker;

#[derive(Clone, Copy)]
struct DummyMarker;

impl StatMarker for DummyMarker {
    type Raw = u64;
}

#[derive(Clone, Copy)]
struct NarrowMarker;

impl StatMarker for NarrowMarker {
    type Raw = u32;
}

type FlatMod = Flat<DummyMarker, u64, NoMetadata>;
type AddMod = Additive<DummyMarker, u64, NoMetadata>;
type PostAddMod = PostAdditive<DummyMarker, u64, NoMetadata>;
type MulMod = Multiplicative<DummyMarker, u64, NoMetadata>;
type PostMulMod = PostMultiplicative<DummyMarker, u64, NoMetadata>;

#[test]
fn empty_combines_yield_the_identities() {
    assert_eq!(0, FlatMod::combine(&vec![]));
    assert_eq!(1, AddMod::combine(&vec![]));
    assert_eq!(0, PostAddMod::combine(&vec![]));
    assert_eq!(1, MulMod::combine(&vec![]));
    assert_eq!(0, PostMulMod::combine(&vec![]));
}

#[test]
fn sum_of_k_equal_payloads_is_k_times_the_payload() {
    let mods = vec![FlatMod::from_raw(5); 3];
    assert_eq!(15, FlatMod::combine(&mods));

    let posts = vec![PostAddMod::from_raw(7); 4];
    assert_eq!(28, PostAddMod::combine(&posts));
}

#[test]
fn product_of_k_equal_payloads_is_the_payload_to_the_k() {
    let mods = vec![MulMod::from_raw(2); 3];
    assert_eq!(8, MulMod::combine(&mods));
}

#[test]
fn additive_combines_offsets_from_one() {
    let mods = vec![AddMod::from_raw(2); 3];
    assert_eq!(7, AddMod::combine(&mods));
}

#[test]
fn mixed_payload_sums_and_products() {
    let sums = vec![FlatMod::from_raw(1), FlatMod::from_raw(10), FlatMod::from_raw(100)];
    assert_eq!(111, FlatMod::combine(&sums));

    let posts = vec![PostMulMod::from_raw(1), PostMulMod::from_raw(2)];
    assert_eq!(3, PostMulMod::combine(&posts));

    let prods = vec![MulMod::from_raw(3), MulMod::from_raw(4)];
    assert_eq!(12, MulMod::combine(&prods));
}

#[test]
fn metadata_free_categories_combine_by_summing() {
    type Pre = PreFlat<DummyMarker, u64>;
    type Mid = MidFlat<DummyMarker, u64>;
    type Post = PostFlat<DummyMarker, u64>;
    assert_eq!(0, Pre::combine(&vec![]));
    assert_eq!(9, Pre::combine(&vec![Pre::from_raw(4), Pre::from_raw(5)]));
    assert_eq!(6, Mid::combine(&vec![Mid::from_raw(6)]));
    assert_eq!(11, Post::combine(&vec![Post::from_raw(4), Post::from_raw(7)]));
}

#[test]
fn sums_wrap_around_the_raw_width() {
    let mods = vec![FlatMod::from_raw(u64::MAX), FlatMod::from_raw(2)];
    assert_eq!(1, FlatMod::combine(&mods));

    type NarrowMul = Multiplicative<NarrowMarker, u32, NoMetadata>;
    let wide = vec![NarrowMul::from_raw(0x1_0000), NarrowMul::from_raw(0x1_0000)];
    assert_eq!(0, NarrowMul::combine(&wide));
}

#[test]
fn payload_reads_back_from_raw() {
    assert_eq!(3, FlatMod::from_raw(3).raw());
    assert_eq!(0, AddMod::from_raw(0).raw());
    assert_eq!(u64::MAX, MulMod::from_raw(u64::MAX).raw());
}

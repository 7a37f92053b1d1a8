//! The numeric payload of a stat: a trait for raw values with the wrapping
//! ring arithmetic that the combine rules and the pipeline fold over, and
//! a trait for payload-like values that can be compared in executable code.

use vstd::prelude::*;
use vstd::arithmetic::div_mod::{lemma_add_mod_noop, lemma_mul_mod_noop_general, lemma_small_mod};
use vstd::arithmetic::mul::{lemma_mul_is_associative, lemma_mul_is_commutative};
use vstd::arithmetic::power::pow;

verus! {

/// A value with an executable equality test that agrees with logical
/// (structural) equality. Modifier metadata must implement this so that
/// removal by value can compare stored modifiers against the argument.
pub trait EqValue: Sized + Copy {
    /// Decides logical equality.
    fn eq_value(&self, other: &Self) -> (r: bool)
        ensures
            r == (*self == *other),
    ;
}

/// A raw numeric stat value. The two reduction rules of the combine
/// contract (sum and product) are given by `add_spec` and `mul_spec`
/// together with their identities; the proof obligations pin down the
/// algebra that makes every combine order-independent.
pub trait RawValue: Sized + Copy + EqValue {
    /// The identity of the sum rule.
    spec fn zero_spec() -> Self;

    /// The identity of the product rule.
    spec fn one_spec() -> Self;

    /// The sum rule's binary operation.
    spec fn add_spec(self, other: Self) -> Self;

    /// The product rule's binary operation.
    spec fn mul_spec(self, other: Self) -> Self;

    fn raw_zero() -> (r: Self)
        ensures
            r == Self::zero_spec(),
    ;

    fn raw_one() -> (r: Self)
        ensures
            r == Self::one_spec(),
    ;

    fn raw_add(self, other: Self) -> (r: Self)
        ensures
            r == self.add_spec(other),
    ;

    fn raw_mul(self, other: Self) -> (r: Self)
        ensures
            r == self.mul_spec(other),
    ;

    /// Adding the identity changes nothing.
    proof fn lemma_add_zero(a: Self)
        ensures
            a.add_spec(Self::zero_spec()) == a,
    ;

    /// Multiplying by the identity changes nothing.
    proof fn lemma_mul_one(a: Self)
        ensures
            a.mul_spec(Self::one_spec()) == a,
    ;

    /// The last two addends of a running sum may be exchanged; with this,
    /// folding the sum rule over a collection is order-independent.
    proof fn lemma_add_exchange(a: Self, b: Self, c: Self)
        ensures
            a.add_spec(b).add_spec(c) == a.add_spec(c).add_spec(b),
    ;

    /// The last two factors of a running product may be exchanged; with
    /// this, folding the product rule over a collection is order-independent.
    proof fn lemma_mul_exchange(a: Self, b: Self, c: Self)
        ensures
            a.mul_spec(b).mul_spec(c) == a.mul_spec(c).mul_spec(b),
    ;
}

/// `x` added `k` times onto `init` with the sum rule.
pub open spec fn repeat_add<R: RawValue>(init: R, x: R, k: nat) -> R
    decreases k,
{
    if k == 0 {
        init
    } else {
        repeat_add(init, x, (k - 1) as nat).add_spec(x)
    }
}

/// `init` multiplied by `x` `k` times with the product rule.
pub open spec fn repeat_mul<R: RawValue>(init: R, x: R, k: nat) -> R
    decreases k,
{
    if k == 0 {
        init
    } else {
        repeat_mul(init, x, (k - 1) as nat).mul_spec(x)
    }
}

/// Folding a sum-like step over a collection whose mapped payloads are
/// all `x` yields `x` added onto the start value once per element.
pub proof fn lemma_fold_left_uniform_add<A, R: RawValue>(
    s: Seq<A>,
    f: spec_fn(R, A) -> R,
    g: spec_fn(A) -> R,
    x: R,
    init: R,
)
    requires
        forall|acc: R, a: A| #[trigger] f(acc, a) == acc.add_spec(g(a)),
        forall|i: int| 0 <= i < s.len() ==> g(s[i]) == x,
    ensures
        s.fold_left(init, f) == repeat_add(init, x, s.len()),
    decreases s.len(),
{
    if s.len() > 0 {
        lemma_fold_left_uniform_add(s.drop_last(), f, g, x, init);
        assert(g(s.last()) == x);
    }
}

/// Folding a product-like step over a collection whose mapped payloads
/// are all `x` multiplies the start value by `x` once per element.
pub proof fn lemma_fold_left_uniform_mul<A, R: RawValue>(
    s: Seq<A>,
    f: spec_fn(R, A) -> R,
    g: spec_fn(A) -> R,
    x: R,
    init: R,
)
    requires
        forall|acc: R, a: A| #[trigger] f(acc, a) == acc.mul_spec(g(a)),
        forall|i: int| 0 <= i < s.len() ==> g(s[i]) == x,
    ensures
        s.fold_left(init, f) == repeat_mul(init, x, s.len()),
    decreases s.len(),
{
    if s.len() > 0 {
        lemma_fold_left_uniform_mul(s.drop_last(), f, g, x, init);
        assert(g(s.last()) == x);
    }
}

impl EqValue for u64 {
    fn eq_value(&self, other: &Self) -> (r: bool) {
        *self == *other
    }
}

/// 64-bit raw values: sum and product wrap modulo 2^64, so both rules stay
/// total, associative and commutative.
impl RawValue for u64 {
    open spec fn zero_spec() -> Self {
        0u64
    }

    open spec fn one_spec() -> Self {
        1u64
    }

    open spec fn add_spec(self, other: Self) -> Self {
        ((self + other) % 0x1_0000_0000_0000_0000) as u64
    }

    open spec fn mul_spec(self, other: Self) -> Self {
        (((self * other) % 0x1_0000_0000_0000_0000) as u64)
    }

    fn raw_zero() -> (r: Self) {
        0u64
    }

    fn raw_one() -> (r: Self) {
        1u64
    }

    fn raw_add(self, other: Self) -> (r: Self) {
        self.wrapping_add(other)
    }

    fn raw_mul(self, other: Self) -> (r: Self) {
        self.wrapping_mul(other)
    }

    proof fn lemma_add_zero(a: Self) {
    }

    proof fn lemma_mul_one(a: Self) {
    }

    proof fn lemma_add_exchange(a: Self, b: Self, c: Self) {
        let m = 0x1_0000_0000_0000_0000int;
        lemma_add_mod_noop(a + b, c as int, m);
        lemma_add_mod_noop(a + c, b as int, m);
    }

    proof fn lemma_mul_exchange(a: Self, b: Self, c: Self) {
        let m = 0x1_0000_0000_0000_0000int;
        lemma_mul_mod_noop_general(a * b, c as int, m);
        lemma_mul_mod_noop_general(a * c, b as int, m);
        lemma_mul_is_associative(a as int, b as int, c as int);
        lemma_mul_is_associative(a as int, c as int, b as int);
        lemma_mul_is_commutative(b as int, c as int);
        assert(a * (b * c) == a * (c * b));
    }
}

impl EqValue for u32 {
    fn eq_value(&self, other: &Self) -> (r: bool) {
        *self == *other
    }
}

/// 32-bit raw values: the same ring arithmetic as the 64-bit binding,
/// wrapping modulo 2^32.
impl RawValue for u32 {
    open spec fn zero_spec() -> Self {
        0u32
    }

    open spec fn one_spec() -> Self {
        1u32
    }

    open spec fn add_spec(self, other: Self) -> Self {
        ((self + other) % 0x1_0000_0000) as u32
    }

    open spec fn mul_spec(self, other: Self) -> Self {
        (((self * other) % 0x1_0000_0000) as u32)
    }

    fn raw_zero() -> (r: Self) {
        0u32
    }

    fn raw_one() -> (r: Self) {
        1u32
    }

    fn raw_add(self, other: Self) -> (r: Self) {
        self.wrapping_add(other)
    }

    fn raw_mul(self, other: Self) -> (r: Self) {
        self.wrapping_mul(other)
    }

    proof fn lemma_add_zero(a: Self) {
    }

    proof fn lemma_mul_one(a: Self) {
    }

    proof fn lemma_add_exchange(a: Self, b: Self, c: Self) {
        let m = 0x1_0000_0000int;
        lemma_add_mod_noop(a + b, c as int, m);
        lemma_add_mod_noop(a + c, b as int, m);
    }

    proof fn lemma_mul_exchange(a: Self, b: Self, c: Self) {
        let m = 0x1_0000_0000int;
        lemma_mul_mod_noop_general(a * b, c as int, m);
        lemma_mul_mod_noop_general(a * c, b as int, m);
        lemma_mul_is_associative(a as int, b as int, c as int);
        lemma_mul_is_associative(a as int, c as int, b as int);
        lemma_mul_is_commutative(b as int, c as int);
        assert(a * (b * c) == a * (c * b));
    }
}

/// On the 64-bit binding, `x` summed `k` times onto `init` is
/// `init + k * x`, modulo 2^64.
pub proof fn lemma_repeat_add_u64(init: u64, x: u64, k: nat)
    ensures
        repeat_add(init, x, k) == ((init + k * x) % 0x1_0000_0000_0000_0000) as u64,
    decreases k,
{
    let m = 0x1_0000_0000_0000_0000int;
    if k == 0 {
        lemma_small_mod(init as nat, m as nat);
    } else {
        lemma_repeat_add_u64(init, x, (k - 1) as nat);
        lemma_small_mod(x as nat, m as nat);
        lemma_add_mod_noop(init + (k - 1) * x, x as int, m);
        assert(init + (k - 1) * x + x == init + k * x) by (nonlinear_arith);
    }
}

/// On the 64-bit binding, `init` multiplied `k` times by `x` is
/// `init * x^k`, modulo 2^64; from the identity 1 that is the `k`-th
/// power of the payload.
pub proof fn lemma_repeat_mul_u64(x: u64, k: nat)
    ensures
        repeat_mul(1u64, x, k) == (pow(x as int, k) % 0x1_0000_0000_0000_0000) as u64,
    decreases k,
{
    reveal(pow);
    let m = 0x1_0000_0000_0000_0000int;
    if k == 0 {
        lemma_small_mod(1nat, m as nat);
    } else {
        lemma_repeat_mul_u64(x, (k - 1) as nat);
        lemma_mul_mod_noop_general(pow(x as int, (k - 1) as nat), x as int, m);
        lemma_mul_is_commutative(pow(x as int, (k - 1) as nat), x as int);
    }
}

/// On the 32-bit binding, `x` summed `k` times onto `init` is
/// `init + k * x`, modulo 2^32.
pub proof fn lemma_repeat_add_u32(init: u32, x: u32, k: nat)
    ensures
        repeat_add(init, x, k) == ((init + k * x) % 0x1_0000_0000) as u32,
    decreases k,
{
    let m = 0x1_0000_0000int;
    if k == 0 {
        lemma_small_mod(init as nat, m as nat);
    } else {
        lemma_repeat_add_u32(init, x, (k - 1) as nat);
        lemma_small_mod(x as nat, m as nat);
        lemma_add_mod_noop(init + (k - 1) * x, x as int, m);
        assert(init + (k - 1) * x + x == init + k * x) by (nonlinear_arith);
    }
}

/// On the 32-bit binding, multiplying the identity 1 `k` times by `x`
/// yields the `k`-th power of the payload, modulo 2^32.
pub proof fn lemma_repeat_mul_u32(x: u32, k: nat)
    ensures
        repeat_mul(1u32, x, k) == (pow(x as int, k) % 0x1_0000_0000) as u32,
    decreases k,
{
    reveal(pow);
    let m = 0x1_0000_0000int;
    if k == 0 {
        lemma_small_mod(1nat, m as nat);
    } else {
        lemma_repeat_mul_u32(x, (k - 1) as nat);
        lemma_mul_mod_noop_general(pow(x as int, (k - 1) as nat), x as int, m);
        lemma_mul_is_commutative(pow(x as int, (k - 1) as nat), x as int);
    }
}

/// The metadata type of modifiers that carry none.
#[derive(Clone, Copy)]
pub struct NoMetadata;

impl EqValue for NoMetadata {
    fn eq_value(&self, other: &Self) -> (r: bool) {
        true
    }
}

impl EqValue for bool {
    fn eq_value(&self, other: &Self) -> (r: bool) {
        *self == *other
    }
}

impl EqValue for char {
    fn eq_value(&self, other: &Self) -> (r: bool) {
        *self == *other
    }
}

impl EqValue for u8 {
    fn eq_value(&self, other: &Self) -> (r: bool) {
        *self == *other
    }
}

impl EqValue for u16 {
    fn eq_value(&self, other: &Self) -> (r: bool) {
        *self == *other
    }
}

impl EqValue for usize {
    fn eq_value(&self, other: &Self) -> (r: bool) {
        *self == *other
    }
}

impl EqValue for i32 {
    fn eq_value(&self, other: &Self) -> (r: bool) {
        *self == *other
    }
}

impl EqValue for i64 {
    fn eq_value(&self, other: &Self) -> (r: bool) {
        *self == *other
    }
}

} // verus!

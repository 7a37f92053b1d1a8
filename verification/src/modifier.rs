//! The per-category modifier contract: a modifier carries a raw payload and
//! is reduced with the other members of its category by a combine rule (a
//! fold of the category's operation over the collection, starting from the
//! category's identity). Order-independence of every combine rule is a
//! proof obligation of the contract, not a convention.

use vstd::prelude::*;
use crate::stat::StatMarker;

pub mod standard;

verus! {

/// One contribution to a stat. A modifier is an immutable value; identity
/// for removal purposes is value equality, decided by `eq_mod`.
pub trait Modifier: Sized + Copy {
    /// The stat kind this modifier applies to.
    type Target: StatMarker;

    /// The modifier constructed by `from_raw`.
    spec fn from_raw_spec(raw: <Self::Target as StatMarker>::Raw) -> Self;

    /// The raw payload.
    spec fn raw_spec(self) -> <Self::Target as StatMarker>::Raw;

    /// The category's reduction of a whole collection to one raw value.
    spec fn combine_spec(s: Seq<Self>) -> <Self::Target as StatMarker>::Raw;

    /// Constructs a modifier with the given payload and default (absent)
    /// metadata.
    fn from_raw(raw: <Self::Target as StatMarker>::Raw) -> (r: Self)
        ensures
            r == Self::from_raw_spec(raw),
    ;

    /// Reads back the payload.
    fn raw(&self) -> (r: <Self::Target as StatMarker>::Raw)
        ensures
            r == self.raw_spec(),
    ;

    /// Decides value equality.
    fn eq_mod(&self, other: &Self) -> (r: bool)
        ensures
            r == (*self == *other),
    ;

    /// Reduces a collection with the category's identity and operation.
    fn combine(s: &Vec<Self>) -> (r: <Self::Target as StatMarker>::Raw)
        ensures
            r == Self::combine_spec(s@),
    ;

    /// Combining never depends on the order the modifiers were stored in:
    /// collections equal as multisets combine to the same value.
    proof fn lemma_combine_permutation(s: Seq<Self>, t: Seq<Self>)
        requires
            s.to_multiset() == t.to_multiset(),
        ensures
            Self::combine_spec(s) == Self::combine_spec(t),
    ;
}

} // verus!

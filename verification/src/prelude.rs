//! Re-exports of the items most users need: the standard modifier
//! categories and the two standard access wrappers.

pub use crate::modifier::standard::Additive;
pub use crate::modifier::standard::Flat;
pub use crate::modifier::standard::Multiplicative;
pub use crate::modifier::standard::PostAdditive;
pub use crate::modifier::standard::PostMultiplicative;

pub use crate::non_send::standard::StandardStatNS;

pub use crate::send::standard::StandardStatS;

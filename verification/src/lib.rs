//! Layered stat aggregation: a derived numeric value is computed from a base
//! value and a number of independently tracked modifier categories, each
//! combined by its own reduction rule, in a fixed pipeline order.

pub mod modifier;
pub mod non_send;
pub mod pipeline;
pub mod prelude;
pub mod raw;
pub mod send;
pub mod stat;

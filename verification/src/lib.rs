//! Verified core of a constant-product token pair exchange: the pair
//! contract's swap, liquidity and fee arithmetic, the factory's pair
//! identifiers and the plans that the contract entry points carry out.

pub mod token;
pub mod math;
pub mod laws;
pub mod pair_laws;
pub mod pair;
pub mod factory;
pub mod router;

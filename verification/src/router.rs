//! The router's configuration and answers. The router's own entry points
//! are not part of this code base; its configuration names the factory it
//! routes through.

use vstd::prelude::*;

verus! {

/// The router's configuration: the address of the factory it routes through.
#[derive(Debug, Clone)]
pub struct Config {
    pub factory_addr: String,
}

/// The router's answers to queries.
#[derive(Debug, Clone)]
pub enum QueryResponse {
    FactoryAddr { factory_addr: String },
}

/// The router's migration message; it carries nothing.
#[derive(Debug, Clone, Copy, PartialEq, Eq, Structural)]
pub struct MigrateMsg {}

} // verus!

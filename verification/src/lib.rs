//! A driver for the ODBC 3.8 interface: the handles, codes, buffers and rules
//! behind its entry points, with their contracts.
//!
//! The entry points themselves take raw pointers from the driver manager; each
//! reads its arguments, hands plain values to the functions here, and writes back
//! what they return.

pub mod allocation;
pub mod codes;
pub mod column;
pub mod connect;
pub mod diagnostics;
pub mod env_attr;
pub mod functions;
pub mod handles;
pub mod info;
pub mod statement;
pub mod text;

use crate::handles::{register_factory, DbConnectionFactory, FactoryRegistry};
use std::sync::Arc;
use vstd::prelude::*;

verus! {

/// Registers the database back end's connection factory when the driver starts.
/// As with [`register_factory`], only the first registration counts.
pub fn init_driver(registry: &mut FactoryRegistry, factory: Arc<Box<dyn DbConnectionFactory>>)
    ensures
        old(registry).registered() is None ==> final(registry).registered() == Some(factory),
        old(registry).registered() is Some ==> final(registry).registered() == old(
            registry,
        ).registered(),
{
    register_factory(registry, factory);
}

} // verus!

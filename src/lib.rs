//! Bootstrap and connection settings for the catalog store: a single-file
//! relational store holding entries, tags and the relation between them.
//!
//! The library decides; the caller performs. `bootstrap::Bootstrap` is a state
//! machine that, fed the outcome of each storage operation, names the next one
//! to perform, so that the whole sequence (probe, directory, store, pool,
//! schema) is verified independently of the storage engine that carries it out.
use vstd::prelude::*;

pub mod bootstrap;
pub mod laws;
pub mod location;
pub mod schema;
pub mod settings;

verus! {

} // verus!

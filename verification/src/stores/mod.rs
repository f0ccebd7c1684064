//! Contracts for document-store adapters.
//!
//! A store adapter is a request/response surface over three
//! operations — store a record, search for records, declare an index
//! mapping — against an external search/index backend. It reuses the
//! shared TLS and credential configuration primitives.

use vstd::prelude::*;

pub mod store_elastic;

pub use store_elastic::ElasticOptions;
pub use store_elastic::ElasticPlan;

verus! {

/// Marker for document-store adapters: a backend that persists
/// records by value and answers structured queries. The operations
/// themselves are transport work and live with the adapter's shell;
/// the contract here only marks which adapters play the role.
pub trait Store {

}

} // verus!

//! Request-classification and routing core of a GraphQL gateway.
//!
//! The crate derives a minimal routing view of a parsed GraphQL document
//! (operation kind, routing key, introspection flag), resolves the backend
//! service that owns an operation through an immutable route table, and holds
//! the current routing configuration in a versioned, atomically replaceable
//! container.

use vstd::prelude::*;

pub mod document;
pub mod query;
pub mod executor;
pub mod service_route;
pub mod shared_route_table;

pub use service_route::{ServiceRoute, ServiceRouteTable};
pub use shared_route_table::{SharedConfig, SharedRouteTable};

verus! {

/// The kind of a GraphQL operation, fixed at parse time.
#[derive(Clone, Copy, Debug, PartialEq, Eq, Structural)]
pub enum OperationType {
    Query,
    Mutation,
    Subscription,
}

} // verus!

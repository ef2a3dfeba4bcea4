//! Per-request orchestration: the routing decision and the request
//! lifecycle.
//!
//! The decision itself is pure: introspection requests bypass the route
//! table entirely; every other request is resolved against one configuration
//! snapshot, and a resolved route that does not accept the request's
//! operation kind is a dispatch-time rejection, not a lookup failure. The
//! surrounding lifecycle — what order the steps may happen in, and that a
//! request can fail out of any non-terminal step — is a small state machine.

use vstd::prelude::*;
use crate::OperationType;
use crate::query::{ProcessedQuery, is_introspection_name};
use crate::service_route::{ServiceRoute, spec_resolve};
use crate::shared_route_table::SharedConfig;

verus! {

/// Why a processed request could not be given a dispatch target.
#[derive(Clone, Copy, Debug, PartialEq, Eq, Structural)]
pub enum RoutingError {
    /// No route claims the routing key and no default route is configured.
    NoRoute,
    /// The resolved route does not accept the request's operation kind.
    UnsupportedOperation,
}

/// Where a processed request is to be handed.
#[derive(Debug)]
pub enum DispatchPlan {
    /// Answer locally from the schema; the route table is never consulted.
    Introspection,
    /// Forward to the backend's network endpoint (queries and mutations).
    Fetch(ServiceRoute),
    /// Forward to the backend over the subscription transport.
    Subscribe(ServiceRoute),
}

/// Decides where a processed request goes, from one configuration snapshot:
/// introspection is answered locally whatever the table says; otherwise the
/// routing key is resolved, a missing route is `NoRoute`, a route that
/// rejects the operation kind is `UnsupportedOperation`, and a compatible
/// route is dispatched over the transport the kind calls for.
pub fn plan_dispatch(pq: &ProcessedQuery<'_>, config: &SharedConfig) -> (r: Result<
    DispatchPlan,
    RoutingError,
>)
    ensures
        is_introspection_name(pq.operation_name@) ==> r == Ok::<DispatchPlan, RoutingError>(
            DispatchPlan::Introspection,
        ),
        !is_introspection_name(pq.operation_name@) ==> match spec_resolve(
            config.table@,
            pq.operation_name@,
        ) {
            None => r == Err::<DispatchPlan, RoutingError>(RoutingError::NoRoute),
            Some(route) => {
                &&& !route.spec_supports(pq.operation_type) ==> r == Err::<
                    DispatchPlan,
                    RoutingError,
                >(RoutingError::UnsupportedOperation)
                &&& route.spec_supports(pq.operation_type)
                    && pq.operation_type == OperationType::Subscription ==> r == Ok::<
                    DispatchPlan,
                    RoutingError,
                >(DispatchPlan::Subscribe(route))
                &&& route.spec_supports(pq.operation_type)
                    && pq.operation_type != OperationType::Subscription ==> r == Ok::<
                    DispatchPlan,
                    RoutingError,
                >(DispatchPlan::Fetch(route))
            },
        },
{
    if pq.is_introspection() {
        return Ok(DispatchPlan::Introspection);
    }
    match config.table.resolve(pq.operation_name.as_str(), pq.operation_type) {
        None => Err(RoutingError::NoRoute),
        Some(route) => {
            if !route.supports(pq.operation_type) {
                Err(RoutingError::UnsupportedOperation)
            } else if pq.operation_type == OperationType::Subscription {
                Ok(DispatchPlan::Subscribe(route.duplicate()))
            } else {
                Ok(DispatchPlan::Fetch(route.duplicate()))
            }
        },
    }
}

/// The outcome of one request, as the metrics record reports it.
#[derive(Clone, Copy, Debug, PartialEq, Eq, Structural)]
pub enum RequestOutcome {
    /// The document could not be reduced to a routing view.
    ProcessingError,
    /// Introspection was answered locally.
    IntrospectionServed,
    /// No route claimed the routing key.
    Unrouted,
    /// The resolved route rejected the operation kind.
    KindMismatch,
    /// The Auth collaborator denied the request.
    Unauthorized,
    /// The backend call failed.
    UpstreamError,
    /// The backend answered.
    Dispatched,
}

/// The metrics record of one request: its outcome and the identifier of the
/// resolved route, where one was resolved.
#[derive(Debug)]
pub struct MetricsEvent {
    pub outcome: RequestOutcome,
    pub route_id: Option<String>,
}

/// The outcome a routing decision is recorded under: a missing route is
/// `Unrouted`, a kind rejection is `KindMismatch`, an introspection plan is
/// served locally, and a forwarded plan is `Dispatched`; the route
/// identifier is carried exactly for the forwarded plans.
pub fn plan_metrics_event(plan: &Result<DispatchPlan, RoutingError>) -> (r: MetricsEvent)
    ensures
        match *plan {
            Ok(DispatchPlan::Introspection) => r.outcome == RequestOutcome::IntrospectionServed
                && r.route_id is None,
            Ok(DispatchPlan::Fetch(route)) => r.outcome == RequestOutcome::Dispatched
                && r.route_id == Some(route.id),
            Ok(DispatchPlan::Subscribe(route)) => r.outcome == RequestOutcome::Dispatched
                && r.route_id == Some(route.id),
            Err(RoutingError::NoRoute) => r.outcome == RequestOutcome::Unrouted && r.route_id
                is None,
            Err(RoutingError::UnsupportedOperation) => r.outcome == RequestOutcome::KindMismatch
                && r.route_id is None,
        },
{
    match plan {
        Ok(DispatchPlan::Introspection) => MetricsEvent {
            outcome: RequestOutcome::IntrospectionServed,
            route_id: None,
        },
        Ok(DispatchPlan::Fetch(route)) => MetricsEvent {
            outcome: RequestOutcome::Dispatched,
            route_id: Some(route.id.clone()),
        },
        Ok(DispatchPlan::Subscribe(route)) => MetricsEvent {
            outcome: RequestOutcome::Dispatched,
            route_id: Some(route.id.clone()),
        },
        Err(RoutingError::NoRoute) => MetricsEvent {
            outcome: RequestOutcome::Unrouted,
            route_id: None,
        },
        Err(RoutingError::UnsupportedOperation) => MetricsEvent {
            outcome: RequestOutcome::KindMismatch,
            route_id: None,
        },
    }
}

/// One request's position in its lifecycle.
#[derive(Clone, Copy, Debug, PartialEq, Eq, Structural)]
pub enum RequestState {
    /// The raw request arrived; nothing has been derived from it.
    Received,
    /// The routing view was derived.
    Processed,
    /// The request was handed to local introspection.
    IntrospectionDispatch,
    /// A compatible route was resolved.
    Routed,
    /// Auth approved the dispatch.
    Authorized,
    /// The request was handed to its backend.
    Dispatched,
    /// A response went out to the client.
    Completed,
    /// The request ended with a client-facing error.
    Failed,
}

/// What the orchestration learned since the last lifecycle step.
#[derive(Clone, Copy, Debug, PartialEq, Eq, Structural)]
pub enum RequestEvent {
    /// The routing view was derived from the document.
    ProcessingSucceeded,
    /// The document could not be reduced to a routing view.
    ProcessingFailed,
    /// The decision was to answer introspection locally.
    PlannedIntrospection,
    /// The decision resolved a compatible route.
    PlannedRoute,
    /// The decision found no route, or the route rejected the kind.
    PlanningFailed,
    /// Auth approved the dispatch.
    AuthGranted,
    /// Auth denied the dispatch.
    AuthDenied,
    /// The collaborator accepted the hand-off.
    DispatchSucceeded,
    /// The collaborator failed.
    DispatchFailed,
    /// The response went out to the client.
    Finished,
}

/// A state no further step leaves.
pub open spec fn is_terminal(s: RequestState) -> bool {
    s == RequestState::Completed || s == RequestState::Failed
}

/// The next lifecycle state after `event` lands in state `s`; an event that
/// does not belong to the state leaves it unchanged.
pub open spec fn spec_step(s: RequestState, event: RequestEvent) -> RequestState {
    match (s, event) {
        (RequestState::Received, RequestEvent::ProcessingSucceeded) => RequestState::Processed,
        (RequestState::Received, RequestEvent::ProcessingFailed) => RequestState::Failed,
        (RequestState::Processed, RequestEvent::PlannedIntrospection) => RequestState::IntrospectionDispatch,
        (RequestState::Processed, RequestEvent::PlannedRoute) => RequestState::Routed,
        (RequestState::Processed, RequestEvent::PlanningFailed) => RequestState::Failed,
        (RequestState::Routed, RequestEvent::AuthGranted) => RequestState::Authorized,
        (RequestState::Routed, RequestEvent::AuthDenied) => RequestState::Failed,
        (RequestState::Authorized, RequestEvent::DispatchSucceeded) => RequestState::Dispatched,
        (RequestState::Authorized, RequestEvent::DispatchFailed) => RequestState::Failed,
        (RequestState::IntrospectionDispatch, RequestEvent::DispatchFailed) => RequestState::Failed,
        (RequestState::IntrospectionDispatch, RequestEvent::Finished) => RequestState::Completed,
        (RequestState::Dispatched, RequestEvent::DispatchFailed) => RequestState::Failed,
        (RequestState::Dispatched, RequestEvent::Finished) => RequestState::Completed,
        (_, _) => s,
    }
}

/// Advances one request's lifecycle by one observed event.
pub fn step(s: RequestState, event: RequestEvent) -> (r: RequestState)
    ensures
        r == spec_step(s, event),
{
    match (s, event) {
        (RequestState::Received, RequestEvent::ProcessingSucceeded) => RequestState::Processed,
        (RequestState::Received, RequestEvent::ProcessingFailed) => RequestState::Failed,
        (RequestState::Processed, RequestEvent::PlannedIntrospection) => RequestState::IntrospectionDispatch,
        (RequestState::Processed, RequestEvent::PlannedRoute) => RequestState::Routed,
        (RequestState::Processed, RequestEvent::PlanningFailed) => RequestState::Failed,
        (RequestState::Routed, RequestEvent::AuthGranted) => RequestState::Authorized,
        (RequestState::Routed, RequestEvent::AuthDenied) => RequestState::Failed,
        (RequestState::Authorized, RequestEvent::DispatchSucceeded) => RequestState::Dispatched,
        (RequestState::Authorized, RequestEvent::DispatchFailed) => RequestState::Failed,
        (RequestState::IntrospectionDispatch, RequestEvent::DispatchFailed) => RequestState::Failed,
        (RequestState::IntrospectionDispatch, RequestEvent::Finished) => RequestState::Completed,
        (RequestState::Dispatched, RequestEvent::DispatchFailed) => RequestState::Failed,
        (RequestState::Dispatched, RequestEvent::Finished) => RequestState::Completed,
        (_, _) => s,
    }
}

/// Once a request has completed or failed, no later event moves it.
pub proof fn lemma_terminal_absorbs(s: RequestState, event: RequestEvent)
    requires
        is_terminal(s),
    ensures
        spec_step(s, event) == s,
{
}

/// Every lifecycle move follows the request state machine: a step either
/// stands still, advances along `Received → Processed →
/// {IntrospectionDispatch | Routed → Authorized → Dispatched} → Completed`,
/// or fails out of a non-terminal state.
pub proof fn lemma_step_follows_lifecycle(s: RequestState, event: RequestEvent)
    ensures
        spec_step(s, event) == s || ({
            ||| (s == RequestState::Received && spec_step(s, event) == RequestState::Processed)
            ||| (s == RequestState::Processed && spec_step(s, event)
                == RequestState::IntrospectionDispatch)
            ||| (s == RequestState::Processed && spec_step(s, event) == RequestState::Routed)
            ||| (s == RequestState::Routed && spec_step(s, event) == RequestState::Authorized)
            ||| (s == RequestState::Authorized && spec_step(s, event) == RequestState::Dispatched)
            ||| (s == RequestState::IntrospectionDispatch && spec_step(s, event)
                == RequestState::Completed)
            ||| (s == RequestState::Dispatched && spec_step(s, event) == RequestState::Completed)
            ||| (!is_terminal(s) && spec_step(s, event) == RequestState::Failed)
        }),
{
}

} // verus!

use handler::executor::{
    plan_dispatch, plan_metrics_event, step, DispatchPlan, RequestEvent, RequestOutcome,
    RequestState, RoutingError,
};
use handler::query::ProcessedQuery;
use handler::service_route::{RouteConfigError, RouteEntry};
use handler::{OperationType, ServiceRoute, ServiceRouteTable, SharedConfig, SharedRouteTable};
use async_graphql_value::Variables;

fn route(id: &str, address: &str, q: bool, m: bool, s: bool) -> ServiceRoute {
    ServiceRoute {
        id: id.to_owned(),
        address: address.to_owned(),
        accepts_queries: q,
        accepts_mutations: m,
        accepts_subscriptions: s,
    }
}

fn entry(key: &str, r: ServiceRoute) -> RouteEntry {
    RouteEntry { key: key.to_owned(), route: r }
}

fn table(entries: Vec<RouteEntry>) -> ServiceRouteTable {
    ServiceRouteTable::try_new(entries).expect("route table should build")
}

#[test]
fn duplicate_keys_are_rejected() {
    let entries = vec![
        entry("banner", route("svc-a", "http://a", true, false, false)),
        entry("banner", route("svc-b", "http://b", true, false, false)),
    ];
    let err = ServiceRouteTable::try_new(entries).unwrap_err();
    assert_eq!(err, RouteConfigError::DuplicateRoute);
}

#[test]
fn invalid_routes_are_rejected() {
    let no_kinds = vec![entry("banner", route("svc-a", "http://a", false, false, false))];
    assert_eq!(ServiceRouteTable::try_new(no_kinds).unwrap_err(), RouteConfigError::InvalidRoute);

    let empty_address = vec![entry("banner", route("svc-a", "", true, false, false))];
    assert_eq!(
        ServiceRouteTable::try_new(empty_address).unwrap_err(),
        RouteConfigError::InvalidRoute
    );
}

#[test]
fn resolve_prefers_exact_match_over_default() {
    let t = table(vec![
        entry("banner", route("svc-banner", "http://banner", true, true, false)),
        entry("*", route("svc-default", "http://default", true, true, true)),
    ]);
    let hit = t.resolve("banner", OperationType::Query).expect("exact match");
    assert_eq!(hit.id, "svc-banner");
    let fallback = t.resolve("hello", OperationType::Query).expect("default route");
    assert_eq!(fallback.id, "svc-default");
}

#[test]
fn resolve_without_entry_or_default_is_none() {
    let t = table(vec![entry("hello", route("svc-hello", "http://hello", true, false, false))]);
    assert!(t.resolve("banner", OperationType::Query).is_none());
}

#[test]
fn resolve_is_repeatable() {
    let t = table(vec![entry("banner", route("svc-banner", "http://banner", true, false, false))]);
    let first = t.resolve("banner", OperationType::Query).map(|r| r.id.clone());
    let second = t.resolve("banner", OperationType::Query).map(|r| r.id.clone());
    assert_eq!(first, second);
    let third = t.resolve("banner", OperationType::Mutation).map(|r| r.id.clone());
    assert_eq!(first, third);
}

#[test]
fn resolve_ignores_kind_mismatch() {
    let t = table(vec![entry("banner", route("svc-banner", "http://banner", false, true, false))]);
    let hit = t.resolve("banner", OperationType::Query).expect("route is still found");
    assert_eq!(hit.id, "svc-banner");
    assert!(!hit.supports(OperationType::Query));
}

#[test]
fn reload_installs_newer_configuration() {
    let mut shared = SharedRouteTable::new(SharedConfig {
        version: 1,
        table: table(vec![entry("banner", route("svc-a", "http://a", true, false, false))]),
    });
    let outcome = shared.reload(SharedConfig {
        version: 2,
        table: table(vec![entry("banner", route("svc-b", "http://b", true, false, false))]),
    });
    assert!(outcome.is_ok());
    let snapshot = shared.current();
    assert_eq!(snapshot.version, 2);
    let hit = snapshot.table.resolve("banner", OperationType::Query).expect("route");
    assert_eq!(hit.id, "svc-b");
}

#[test]
fn stale_reload_is_rejected() {
    let mut shared = SharedRouteTable::new(SharedConfig {
        version: 5,
        table: table(vec![entry("banner", route("svc-a", "http://a", true, false, false))]),
    });
    let equal = shared.reload(SharedConfig {
        version: 5,
        table: table(vec![entry("banner", route("svc-b", "http://b", true, false, false))]),
    });
    assert!(equal.is_err());
    let older = shared.reload(SharedConfig {
        version: 4,
        table: table(vec![entry("banner", route("svc-c", "http://c", true, false, false))]),
    });
    assert!(older.is_err());
    let snapshot = shared.current();
    assert_eq!(snapshot.version, 5);
    let hit = snapshot.table.resolve("banner", OperationType::Query).expect("route");
    assert_eq!(hit.id, "svc-a");
}

fn processed(query: &str, variables: &Variables) -> (String, OperationType, bool) {
    let document = async_graphql_parser::parse_query(query).expect("Failed to parse query");
    let q = ProcessedQuery::try_new(&document, variables).expect("Failed to process query");
    (q.operation_name.clone(), q.operation_type, q.is_introspection())
}

#[test]
fn introspection_bypasses_route_lookup() {
    let query = "{ __schema { types { name } } }";
    let document = async_graphql_parser::parse_query(query).expect("Failed to parse query");
    let variables = Variables::default();
    let q = ProcessedQuery::try_new(&document, &variables).expect("Failed to process query");
    assert_eq!(q.operation_name, "__schema");
    assert!(q.is_introspection());

    let config = SharedConfig { version: 1, table: table(Vec::new()) };
    let plan = plan_dispatch(&q, &config).expect("introspection is always answered");
    assert!(matches!(plan, DispatchPlan::Introspection));
}

#[test]
fn unrouted_request_is_a_no_route_error() {
    let variables = Variables::default();
    let document =
        async_graphql_parser::parse_query("query { banner { id } }").expect("Failed to parse");
    let q = ProcessedQuery::try_new(&document, &variables).expect("Failed to process query");
    let config = SharedConfig {
        version: 1,
        table: table(vec![entry("hello", route("svc-hello", "http://hello", true, false, false))]),
    };
    let err = plan_dispatch(&q, &config).unwrap_err();
    assert_eq!(err, RoutingError::NoRoute);
    let event = plan_metrics_event(&Err(err));
    assert_eq!(event.outcome, RequestOutcome::Unrouted);
    assert_eq!(event.route_id, None);
}

#[test]
fn kind_mismatch_is_an_unsupported_operation_error() {
    let variables = Variables::default();
    let document =
        async_graphql_parser::parse_query("mutation { banner { id } }").expect("Failed to parse");
    let q = ProcessedQuery::try_new(&document, &variables).expect("Failed to process query");
    let config = SharedConfig {
        version: 1,
        table: table(vec![entry("banner", route("svc-banner", "http://banner", true, false, false))]),
    };
    let err = plan_dispatch(&q, &config).unwrap_err();
    assert_eq!(err, RoutingError::UnsupportedOperation);
    let event = plan_metrics_event(&Err(err));
    assert_eq!(event.outcome, RequestOutcome::KindMismatch);
}

#[test]
fn compatible_route_is_dispatched_by_kind() {
    let variables = Variables::default();
    let config = SharedConfig {
        version: 1,
        table: table(vec![entry("*", route("svc-default", "http://default", true, true, true))]),
    };

    let (name, ty, _) = processed("query { banner { id } }", &variables);
    let document =
        async_graphql_parser::parse_query("query { banner { id } }").expect("Failed to parse");
    let q = ProcessedQuery::try_new(&document, &variables).expect("Failed to process query");
    assert_eq!((name.as_str(), ty), ("banner", OperationType::Query));
    let plan = plan_dispatch(&q, &config).expect("route is compatible");
    match &plan {
        DispatchPlan::Fetch(r) => assert_eq!(r.id, "svc-default"),
        other => panic!("expected a fetch plan, got {:?}", other),
    }
    let event = plan_metrics_event(&Ok(plan));
    assert_eq!(event.outcome, RequestOutcome::Dispatched);
    assert_eq!(event.route_id, Some("svc-default".to_owned()));

    let document =
        async_graphql_parser::parse_query("subscription { bannerChanged { id } }")
            .expect("Failed to parse");
    let q = ProcessedQuery::try_new(&document, &variables).expect("Failed to process query");
    let plan = plan_dispatch(&q, &config).expect("route is compatible");
    assert!(matches!(plan, DispatchPlan::Subscribe(_)));
}

#[test]
fn lifecycle_follows_the_state_machine() {
    let s = RequestState::Received;
    let s = step(s, RequestEvent::ProcessingSucceeded);
    assert_eq!(s, RequestState::Processed);
    let s = step(s, RequestEvent::PlannedRoute);
    assert_eq!(s, RequestState::Routed);
    let s = step(s, RequestEvent::AuthGranted);
    assert_eq!(s, RequestState::Authorized);
    let s = step(s, RequestEvent::DispatchSucceeded);
    assert_eq!(s, RequestState::Dispatched);
    let s = step(s, RequestEvent::Finished);
    assert_eq!(s, RequestState::Completed);

    let intro = step(RequestState::Processed, RequestEvent::PlannedIntrospection);
    assert_eq!(intro, RequestState::IntrospectionDispatch);
    assert_eq!(step(intro, RequestEvent::Finished), RequestState::Completed);

    assert_eq!(
        step(RequestState::Received, RequestEvent::ProcessingFailed),
        RequestState::Failed
    );
    assert_eq!(step(RequestState::Routed, RequestEvent::AuthDenied), RequestState::Failed);
    assert_eq!(
        step(RequestState::Completed, RequestEvent::DispatchFailed),
        RequestState::Completed
    );
    assert_eq!(step(RequestState::Failed, RequestEvent::Finished), RequestState::Failed);
}

use std::sync::Arc;

use wasm_fabric::fabric::{SharedFabric, WasmFabric};
use wasm_fabric::fabric_types::{
    CapabilitySource, FabricCandidate, FabricCapability, FabricEvent, FabricHealth,
    FabricModuleRegistration, FabricModuleState, FabricRegistrationId, FabricReport,
    FabricReportOutcome, FabricRequest, PluginId, RegisteredCapability, VoltID,
};
use wasm_fabric::routing::{
    DefaultFabricRoutingPolicy, FabricCandidateScore, FabricRoutingPolicy,
};

fn manifest_capability(capability: FabricCapability) -> RegisteredCapability {
    RegisteredCapability::new(capability, CapabilitySource::VoltManifest)
}

fn registration(
    plugin_id: u64,
    name: &str,
    state: FabricModuleState,
    health: FabricHealth,
    capabilities: Vec<RegisteredCapability>,
) -> FabricModuleRegistration {
    FabricModuleRegistration::new(
        PluginId(plugin_id),
        VoltID { author: "author".to_string(), name: name.to_string() },
        name,
    )
    .state(state)
    .health(health)
    .capabilities(capabilities)
}

fn formatter(plugin_id: u64) -> FabricModuleRegistration {
    registration(
        plugin_id,
        "formatter",
        FabricModuleState::Ready,
        FabricHealth::Healthy,
        vec![manifest_capability(FabricCapability::new("language", "format"))],
    )
}

#[test]
fn routes_exact_over_wildcard_and_generic() {
    let fabric = WasmFabric::new();

    fabric.register(registration(
        1,
        "generic",
        FabricModuleState::Ready,
        FabricHealth::Healthy,
        vec![manifest_capability(FabricCapability::new("language", "format"))],
    ));

    fabric.register(registration(
        2,
        "wildcard",
        FabricModuleState::Ready,
        FabricHealth::Healthy,
        vec![manifest_capability(FabricCapability::new("language", "format").language("*"))],
    ));

    fabric.register(registration(
        3,
        "exact",
        FabricModuleState::Ready,
        FabricHealth::Healthy,
        vec![manifest_capability(FabricCapability::new("language", "format").language("rust"))],
    ));

    let route = fabric
        .route(FabricRequest::new("language", "format").language("rust"))
        .expect("route should resolve");

    assert_eq!(route.selected.plugin_id.0, 3);
    assert_eq!(
        route
            .candidates
            .iter()
            .map(|candidate| candidate.plugin_id.0)
            .collect::<Vec<_>>(),
        vec![3, 2, 1]
    );
}

#[test]
fn prefers_health_then_priority() {
    let fabric = WasmFabric::new();

    fabric.register(registration(
        1,
        "degraded-high-priority",
        FabricModuleState::Ready,
        FabricHealth::Degraded,
        vec![manifest_capability(FabricCapability::new("language", "format").priority(99))],
    ));

    fabric.register(registration(
        2,
        "healthy-lower-priority",
        FabricModuleState::Ready,
        FabricHealth::Healthy,
        vec![manifest_capability(FabricCapability::new("language", "format").priority(1))],
    ));

    let route = fabric
        .route(FabricRequest::new("language", "format"))
        .expect("route should resolve");

    assert_eq!(route.selected.plugin_id.0, 2);
}

#[test]
fn filters_unroutable_modules() {
    let fabric = WasmFabric::new();

    fabric.register(registration(
        1,
        "starting",
        FabricModuleState::Starting,
        FabricHealth::Healthy,
        vec![manifest_capability(FabricCapability::new("language", "format"))],
    ));

    fabric.register(registration(
        2,
        "unhealthy",
        FabricModuleState::Ready,
        FabricHealth::Unhealthy,
        vec![manifest_capability(FabricCapability::new("language", "format"))],
    ));

    assert!(fabric.route(FabricRequest::new("language", "format")).is_none());
}

#[test]
fn stale_unregistration_is_ignored() {
    let fabric = WasmFabric::new();

    let plugin = PluginId(1);
    let first_registration = fabric.register(registration(
        plugin.0,
        "module",
        FabricModuleState::Ready,
        FabricHealth::Healthy,
        vec![manifest_capability(FabricCapability::new("language", "format"))],
    ));

    let second_registration = fabric.register(registration(
        plugin.0,
        "module-new",
        FabricModuleState::Ready,
        FabricHealth::Healthy,
        vec![manifest_capability(FabricCapability::new("language", "format"))],
    ));

    assert_ne!(first_registration, second_registration);
    assert!(!fabric.unregister(plugin, first_registration));

    let snapshot = fabric.snapshot();
    assert_eq!(snapshot.modules.len(), 1);
    assert_eq!(snapshot.modules[0].registration_id, second_registration);
}

#[test]
fn updates_require_current_registration() {
    let fabric = WasmFabric::new();

    let plugin = PluginId(7);
    let registration_id = fabric.register(registration(
        plugin.0,
        "stateful",
        FabricModuleState::Ready,
        FabricHealth::Unknown,
        vec![manifest_capability(FabricCapability::new("language", "format"))],
    ));

    assert!(!fabric.update_state(
        plugin,
        FabricRegistrationId(999),
        FabricModuleState::Stopped,
    ));

    assert!(fabric.update_health(plugin, registration_id, FabricHealth::Healthy));

    let snapshot = fabric.snapshot();
    assert_eq!(snapshot.modules[0].health, FabricHealth::Healthy);
    assert_eq!(snapshot.modules[0].state, FabricModuleState::Ready);
}

#[test]
fn default_routing_policy_matches_default_constructor() {
    let with_default_ctor = WasmFabric::new();
    let with_policy = WasmFabric::with_policy(Arc::new(DefaultFabricRoutingPolicy));

    let registration1 = registration(
        10,
        "formatter",
        FabricModuleState::Ready,
        FabricHealth::Healthy,
        vec![manifest_capability(FabricCapability::new("language", "format").language("rust"))],
    );
    let registration2 = registration(
        11,
        "fallback",
        FabricModuleState::Ready,
        FabricHealth::Unknown,
        vec![manifest_capability(FabricCapability::new("language", "format"))],
    );

    with_default_ctor.register(registration1.clone());
    with_default_ctor.register(registration2.clone());
    with_policy.register(registration1);
    with_policy.register(registration2);

    let request = FabricRequest::new("language", "format").language("rust");
    let route_a = with_default_ctor.route(request.clone()).unwrap();
    let route_b = with_policy.route(request).unwrap();
    assert_eq!(route_a.selected.plugin_id, route_b.selected.plugin_id);
    assert_eq!(route_a.candidates.len(), route_b.candidates.len());
}

#[test]
fn a_new_fabric_is_empty() {
    let fabric = WasmFabric::default();
    let snapshot = fabric.snapshot();
    assert_eq!(snapshot.generation, 0);
    assert_eq!(snapshot.modules.len(), 0);
    assert_eq!(fabric.events(), vec![]);
}

#[test]
fn the_lock_keeps_what_is_written() {
    let fabric = WasmFabric::new();
    let first = fabric.register(formatter(4));
    let second = fabric.register(formatter(2));
    assert_eq!(first, FabricRegistrationId(1));
    assert_eq!(second, FabricRegistrationId(2));

    let snapshot = fabric.snapshot();
    assert_eq!(snapshot.generation, 2);
    assert_eq!(
        snapshot.modules.iter().map(|module| module.plugin_id.0).collect::<Vec<_>>(),
        vec![2, 4]
    );
}

#[test]
fn a_current_registration_leaves_once() {
    let fabric = WasmFabric::new();
    let id = fabric.register(formatter(1));
    assert!(fabric.unregister(PluginId(1), id));
    assert!(!fabric.unregister(PluginId(1), id));
    assert_eq!(fabric.snapshot().modules.len(), 0);
    assert_eq!(fabric.snapshot().generation, 2);
}

#[test]
fn every_report_is_recorded() {
    let fabric = WasmFabric::new();
    let plugin = PluginId(1);
    let id = fabric.register(formatter(1));
    assert!(fabric.update_state(plugin, id, FabricModuleState::Suspended));
    assert!(fabric.update_health(plugin, id, FabricHealth::Degraded));
    let offer = vec![manifest_capability(FabricCapability::new("language", "lint"))];
    assert!(fabric.update_capabilities(plugin, id, offer.clone()));
    let module = fabric.snapshot().modules[0].clone();
    assert_eq!(module.state, FabricModuleState::Suspended);
    assert_eq!(module.health, FabricHealth::Degraded);
    assert_eq!(module.capabilities, offer);
    assert!(!fabric.update_state(PluginId(2), id, FabricModuleState::Ready));
    assert!(!fabric.update_health(PluginId(2), id, FabricHealth::Healthy));
    assert!(!fabric.update_capabilities(PluginId(2), id, vec![]));
}

#[test]
fn events_tell_what_happened() {
    let fabric = WasmFabric::new();
    let plugin = PluginId(1);
    let first = fabric.register(formatter(1));
    let second = fabric.register(formatter(1));
    fabric.update_state(plugin, second, FabricModuleState::Ready);
    let hit = FabricRequest::new("language", "format");
    let miss = FabricRequest::new("language", "lint");
    let route = fabric.route(hit.clone()).unwrap();
    assert!(fabric.route(miss.clone()).is_none());
    fabric.unregister(plugin, first);
    fabric.unregister(plugin, second);

    let expected = vec![
        FabricEvent::Registered {
            registration_id: first,
            plugin_id: plugin,
            name: "formatter".to_string(),
        },
        FabricEvent::Updated { registration_id: second, plugin_id: plugin },
        FabricEvent::Updated { registration_id: second, plugin_id: plugin },
        FabricEvent::RouteResolved { request: hit, selected: route.selected },
        FabricEvent::RouteMiss { request: miss },
        FabricEvent::Unregistered {
            registration_id: second,
            plugin_id: plugin,
            name: "formatter".to_string(),
        },
    ];
    assert_eq!(fabric.events(), expected);
    assert_eq!(fabric.drain_events(), expected);
    assert_eq!(fabric.drain_events(), vec![]);
}

#[test]
fn routing_leaves_modules_and_generation() {
    let fabric = WasmFabric::new();
    fabric.register(formatter(1));
    let before = fabric.snapshot();
    fabric.route(FabricRequest::new("language", "format"));
    fabric.route(FabricRequest::new("language", "lint"));
    assert_eq!(fabric.snapshot(), before);
}

#[test]
fn equal_candidates_go_by_plugin_number() {
    let fabric = WasmFabric::new();
    fabric.register(formatter(9));
    fabric.register(formatter(3));
    fabric.register(formatter(5));
    let route = fabric.route(FabricRequest::new("language", "format")).unwrap();
    assert_eq!(
        route.candidates.iter().map(|candidate| candidate.plugin_id.0).collect::<Vec<_>>(),
        vec![3, 5, 9]
    );
    assert_eq!(route.selected, route.candidates[0]);
}

#[test]
fn a_module_answers_with_its_strongest_capability() {
    let fabric = WasmFabric::new();
    fabric.register(registration(
        1,
        "many",
        FabricModuleState::Ready,
        FabricHealth::Healthy,
        vec![
            manifest_capability(FabricCapability::new("language", "format").priority(50)),
            manifest_capability(
                FabricCapability::new("language", "format").language("rust").priority(1),
            ),
            manifest_capability(
                FabricCapability::new("language", "format").language("rust").priority(7),
            ),
            manifest_capability(
                FabricCapability::new("language", "format").language("go").priority(90),
            ),
        ],
    ));
    let route = fabric.route(FabricRequest::new("language", "format").language("rust")).unwrap();
    assert_eq!(route.selected.capability.capability.priority, 7);
    let route = fabric.route(FabricRequest::new("language", "format")).unwrap();
    assert_eq!(route.selected.capability.capability.priority, 50);
}

struct YoungestFirst;

impl FabricRoutingPolicy for YoungestFirst {
    fn rank(
        &self,
        _request: &FabricRequest,
        candidate: &FabricCandidate,
    ) -> FabricCandidateScore {
        FabricCandidateScore {
            health: 0,
            specificity: 0,
            priority: candidate.registration_id.0 as i32,
        }
    }
}

#[test]
fn a_policy_decides_the_order() {
    let fabric = WasmFabric::with_policy(Arc::new(YoungestFirst));
    fabric.register(formatter(1));
    fabric.register(formatter(2));
    fabric.register(formatter(3));
    let route = fabric.route(FabricRequest::new("language", "format")).unwrap();
    assert_eq!(
        route.candidates.iter().map(|candidate| candidate.plugin_id.0).collect::<Vec<_>>(),
        vec![3, 2, 1]
    );
}

#[test]
fn a_policy_may_be_a_trait_object() {
    let policy: Arc<dyn FabricRoutingPolicy> = Arc::new(YoungestFirst);
    let fabric = WasmFabric::<dyn FabricRoutingPolicy>::with_policy(policy);
    fabric.register(formatter(1));
    fabric.register(formatter(2));
    let route = fabric.route(FabricRequest::new("language", "format")).unwrap();
    assert_eq!(route.selected.plugin_id, PluginId(2));
}

#[test]
fn a_shared_fabric_takes_any_policy() {
    let policy: Arc<dyn FabricRoutingPolicy> = Arc::new(DefaultFabricRoutingPolicy);
    let by_number: SharedFabric = Arc::new(WasmFabric::with_policy(policy));
    let policy: Arc<dyn FabricRoutingPolicy> = Arc::new(YoungestFirst);
    let youngest: SharedFabric = Arc::new(WasmFabric::with_policy(policy));
    let mut selected = Vec::new();
    for fabric in [by_number, youngest] {
        let owner = Arc::clone(&fabric);
        owner.register(formatter(1));
        fabric.register(formatter(2));
        let route = fabric.route(FabricRequest::new("language", "format")).unwrap();
        selected.push(route.selected.plugin_id.0);
    }
    assert_eq!(selected, vec![1, 2]);
}

#[test]
fn reports_say_what_became_of_them() {
    let fabric = WasmFabric::new();
    let plugin = PluginId(1);
    let first = fabric.register(formatter(1));
    let second = fabric.register(formatter(1));
    let before = fabric.snapshot();
    let events = fabric.events();
    assert_eq!(
        fabric.report(plugin, first, FabricReport::Health(FabricHealth::Unhealthy)),
        FabricReportOutcome::Stale
    );
    assert_eq!(
        fabric.report(PluginId(9), second, FabricReport::State(FabricModuleState::Failed)),
        FabricReportOutcome::Unknown
    );
    assert_eq!(fabric.snapshot(), before);
    assert_eq!(fabric.events(), events);
    assert_eq!(
        fabric.report(plugin, second, FabricReport::Capabilities(vec![])),
        FabricReportOutcome::Applied
    );
    assert_eq!(fabric.snapshot().modules[0].capabilities, vec![]);
    assert_eq!(fabric.snapshot().generation, before.generation + 1);
}

#[test]
fn looking_drains_nothing() {
    let fabric = WasmFabric::new();
    fabric.register(formatter(1));
    let events = fabric.events();
    let snapshot = fabric.snapshot();
    assert_eq!(events.len(), 1);
    assert_eq!(fabric.events(), events);
    assert_eq!(fabric.snapshot(), snapshot);
    assert_eq!(fabric.drain_events(), events);
    assert_eq!(fabric.events(), vec![]);
}

use std::cmp::Ordering;

use wasm_fabric::fabric_types::{
    CapabilitySource, FabricCapability, FabricEvent, FabricHealth, FabricModuleRegistration,
    FabricModuleState, FabricRegistrationId, FabricReport, FabricReportOutcome, FabricRequest,
    PluginId, RegisteredCapability, VoltID,
};
use wasm_fabric::inner::{FabricInner, FabricModuleRecord};
use wasm_fabric::routing::{
    compare_candidates, compare_scored, DefaultFabricRoutingPolicy, FabricCandidateScore,
    FabricRoutingPolicy,
};

fn ready(plugin_id: u64, health: FabricHealth, priority: i32) -> FabricModuleRegistration {
    FabricModuleRegistration::new(
        PluginId(plugin_id),
        VoltID { author: "author".to_string(), name: "volt".to_string() },
        "module",
    )
    .state(FabricModuleState::Ready)
    .health(health)
    .capabilities(vec![RegisteredCapability::new(
        FabricCapability::new("language", "format").priority(priority),
        CapabilitySource::VoltManifest,
    )])
}

fn numbers(inner: &FabricInner) -> Vec<u64> {
    inner.snapshot().modules.iter().map(|module| module.plugin_id.0).collect()
}

#[test]
fn numbers_of_registrations_rise() {
    let mut inner = FabricInner::new();
    let first = inner.register(ready(1, FabricHealth::Healthy, 0));
    let second = inner.register(ready(1, FabricHealth::Healthy, 0));
    let third = inner.register(ready(2, FabricHealth::Healthy, 0));
    assert!(first < second && second < third);
}

#[test]
fn a_retired_registration_does_nothing() {
    let mut inner = FabricInner::new();
    let plugin = PluginId(1);
    let first = inner.register(ready(1, FabricHealth::Healthy, 0));
    inner.register(ready(1, FabricHealth::Unknown, 0));
    let before = inner.snapshot();
    let events = inner.events();
    assert!(!inner.unregister(plugin, first));
    assert!(!inner.update_state(plugin, first, FabricModuleState::Failed));
    assert!(!inner.update_health(plugin, first, FabricHealth::Unhealthy));
    assert!(!inner.update_capabilities(plugin, first, vec![]));
    assert_eq!(inner.snapshot(), before);
    assert_eq!(inner.events(), events);
}

#[test]
fn unregistering_brings_back_the_others() {
    let mut inner = FabricInner::new();
    inner.register(ready(5, FabricHealth::Healthy, 0));
    inner.register(ready(2, FabricHealth::Healthy, 0));
    assert_eq!(numbers(&inner), vec![2, 5]);
    let id = inner.register(ready(3, FabricHealth::Healthy, 0));
    assert_eq!(numbers(&inner), vec![2, 3, 5]);
    assert!(inner.unregister(PluginId(3), id));
    assert_eq!(numbers(&inner), vec![2, 5]);
    assert!(!inner.unregister(PluginId(3), id));
}

#[test]
fn generations_count_changes() {
    let mut inner = FabricInner::new();
    assert_eq!(inner.snapshot().generation, 0);
    let id = inner.register(ready(1, FabricHealth::Healthy, 0));
    assert_eq!(inner.snapshot().generation, 1);
    inner.update_state(PluginId(1), id, FabricModuleState::Ready);
    assert_eq!(inner.snapshot().generation, 2);
    inner.update_state(PluginId(1), FabricRegistrationId(44), FabricModuleState::Failed);
    inner.route(FabricRequest::new("language", "format"), &DefaultFabricRoutingPolicy);
    inner.drain_events();
    assert_eq!(inner.snapshot().generation, 2);
    inner.unregister(PluginId(1), id);
    assert_eq!(inner.snapshot().generation, 3);
}

#[test]
fn candidates_go_by_health_then_priority_then_number() {
    let mut inner = FabricInner::new();
    inner.register(ready(1, FabricHealth::Degraded, 90));
    inner.register(ready(2, FabricHealth::Unknown, 5));
    inner.register(ready(3, FabricHealth::Unknown, 6));
    inner.register(ready(4, FabricHealth::Healthy, -9));
    inner.register(ready(5, FabricHealth::Unknown, 5));
    inner.register(ready(6, FabricHealth::Unhealthy, 99));
    let route = inner
        .route(FabricRequest::new("language", "format"), &DefaultFabricRoutingPolicy)
        .unwrap();
    assert_eq!(
        route.candidates.iter().map(|candidate| candidate.plugin_id.0).collect::<Vec<_>>(),
        vec![4, 3, 2, 5, 1]
    );
    let policy = DefaultFabricRoutingPolicy;
    let request = FabricRequest::new("language", "format");
    let first = &route.candidates[0];
    let last = &route.candidates[4];
    assert_eq!(compare_candidates(first, last, &request, &policy), Ordering::Less);
    assert_eq!(compare_candidates(last, first, &request, &policy), Ordering::Greater);
    assert_eq!(compare_candidates(first, first, &request, &policy), Ordering::Equal);
    assert_eq!(
        policy.rank(&request, first),
        FabricCandidateScore { health: 3, specificity: 1, priority: -9 }
    );
}

#[test]
fn given_scores_decide_between_candidates() {
    let mut inner = FabricInner::new();
    inner.register(ready(1, FabricHealth::Healthy, 0));
    inner.register(ready(2, FabricHealth::Healthy, 0));
    let route = inner
        .route(FabricRequest::new("language", "format"), &DefaultFabricRoutingPolicy)
        .unwrap();
    let (one, two) = (&route.candidates[0], &route.candidates[1]);
    let low = FabricCandidateScore { health: 1, specificity: 3, priority: 9 };
    let high = FabricCandidateScore { health: 2, specificity: 0, priority: 0 };
    assert_eq!(compare_scored(one, &low, two, &high), Ordering::Greater);
    assert_eq!(compare_scored(one, &high, two, &low), Ordering::Less);
    assert_eq!(compare_scored(one, &low, two, &low), Ordering::Less);
    assert_eq!(compare_scored(one, &low, one, &low), Ordering::Equal);
    let mut younger = one.clone();
    younger.registration_id = FabricRegistrationId(8);
    assert_eq!(compare_scored(&younger, &low, one, &low), Ordering::Greater);
}

#[test]
fn registrations_are_numbered_from_one() {
    let mut inner = FabricInner::new();
    for n in 1..=5 {
        assert_eq!(
            inner.register(ready(n % 2, FabricHealth::Healthy, 0)),
            FabricRegistrationId(n)
        );
        inner.route(FabricRequest::new("language", "format"), &DefaultFabricRoutingPolicy);
        inner.drain_events();
    }
}

#[test]
fn an_update_changes_one_module() {
    let mut inner = FabricInner::new();
    let plugin = PluginId(1);
    let id = inner.register(ready(1, FabricHealth::Healthy, 0));
    inner.register(ready(2, FabricHealth::Healthy, 0));
    let before = inner.snapshot();
    let mut events = inner.events();
    let rename = |module: &mut FabricModuleRecord| module.name.push('s');
    assert!(inner.update_module(plugin, id, rename));
    let after = inner.snapshot();
    assert_eq!(after.modules[0].name, "modules");
    assert_eq!(after.modules[0].health, before.modules[0].health);
    assert_eq!(after.modules[1], before.modules[1]);
    assert_eq!(after.generation, before.generation + 1);
    events.push(FabricEvent::Updated { registration_id: id, plugin_id: plugin });
    assert_eq!(inner.events(), events);
}

#[test]
fn an_update_that_changes_nothing_still_counts() {
    let mut inner = FabricInner::new();
    let plugin = PluginId(1);
    let id = inner.register(ready(1, FabricHealth::Healthy, 0));
    let before = inner.snapshot();
    let mut calls = 0;
    assert!(inner.update_module(plugin, id, |_| calls += 1));
    assert_eq!(calls, 1);
    assert_eq!(inner.snapshot().modules, before.modules);
    assert_eq!(inner.snapshot().generation, before.generation + 1);
    assert_eq!(inner.events().len(), 2);
}

#[test]
fn a_refused_update_is_not_called() {
    let mut inner = FabricInner::new();
    let id = inner.register(ready(1, FabricHealth::Healthy, 0));
    let before = inner.snapshot();
    let events = inner.events();
    let mut calls = 0;
    assert!(!inner.update_module(PluginId(1), FabricRegistrationId(id.0 + 1), |_| calls += 1));
    assert!(!inner.update_module(PluginId(2), id, |_| calls += 1));
    assert_eq!(calls, 0);
    assert_eq!(inner.snapshot(), before);
    assert_eq!(inner.events(), events);
}

#[test]
fn reports_are_recorded_stale_or_unknown() {
    let mut inner = FabricInner::new();
    let plugin = PluginId(1);
    let first = inner.register(ready(1, FabricHealth::Healthy, 0));
    assert_eq!(
        inner.report(plugin, first, FabricReport::State(FabricModuleState::Suspended)),
        FabricReportOutcome::Applied
    );
    assert_eq!(inner.snapshot().modules[0].state, FabricModuleState::Suspended);
    assert_eq!(
        inner.report(plugin, first, FabricReport::Health(FabricHealth::Degraded)),
        FabricReportOutcome::Applied
    );
    assert_eq!(inner.snapshot().modules[0].health, FabricHealth::Degraded);
    assert_eq!(
        inner.report(plugin, first, FabricReport::Capabilities(vec![])),
        FabricReportOutcome::Applied
    );
    assert_eq!(inner.snapshot().modules[0].capabilities, vec![]);
    let second = inner.register(ready(1, FabricHealth::Healthy, 0));
    let health = FabricReport::Health(FabricHealth::Unhealthy);
    assert_eq!(inner.report(plugin, first, health), FabricReportOutcome::Stale);
    let health = FabricReport::Health(FabricHealth::Unhealthy);
    assert_eq!(inner.report(PluginId(2), second, health), FabricReportOutcome::Unknown);
    assert_eq!(inner.snapshot().modules[0].health, FabricHealth::Healthy);
}

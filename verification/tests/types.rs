use std::cmp::Ordering;

use wasm_fabric::fabric_types::{
    CapabilitySource, FabricCapability, FabricHealth, FabricModuleRegistration, FabricModuleState,
    FabricRegistrationId, FabricRequest, PluginId, RegisteredCapability, VoltID,
};
use wasm_fabric::routing::compare_capabilities;
use wasm_fabric::text::{compare_text, decimal_text};

fn capability(language: Option<&str>) -> FabricCapability {
    let plain = FabricCapability::new("language", "format");
    match language {
        Some(language) => plain.language(language),
        None => plain,
    }
}

fn request(language: Option<&str>) -> FabricRequest {
    let plain = FabricRequest::new("language", "format");
    match language {
        Some(language) => plain.language(language),
        None => plain,
    }
}

#[test]
fn strings_and_slices_name_the_same() {
    let by_slice = FabricCapability::new("language", "format").language("rust");
    let by_string = FabricCapability::new("language".to_string(), "format".to_string())
        .language("rust".to_string());
    assert_eq!(by_slice, by_string);
    assert_eq!(by_slice.namespace, "language");
    assert_eq!(by_slice.operation, "format");
    assert_eq!(by_slice.language, Some("rust".to_string()));
    assert_eq!(by_slice.priority, 0);
    assert_eq!(by_slice.priority(-3).priority, -3);
}

#[test]
fn capabilities_match_by_operation_and_language() {
    assert!(capability(None).matches(&request(None)));
    assert!(capability(None).matches(&request(Some("rust"))));
    assert!(capability(Some("*")).matches(&request(None)));
    assert!(capability(Some("*")).matches(&request(Some("rust"))));
    assert!(capability(Some("rust")).matches(&request(Some("rust"))));
    assert!(!capability(Some("rust")).matches(&request(None)));
    assert!(!capability(Some("rust")).matches(&request(Some("go"))));
    assert!(!capability(None).matches(&FabricRequest::new("language", "lint")));
    assert!(!capability(None).matches(&FabricRequest::new("debug", "format")));
}

#[test]
fn specificity_grades_the_language() {
    assert_eq!(capability(Some("rust")).specificity(&request(Some("rust"))), 3);
    assert_eq!(capability(Some("*")).specificity(&request(Some("*"))), 3);
    assert_eq!(capability(Some("*")).specificity(&request(Some("rust"))), 2);
    assert_eq!(capability(Some("*")).specificity(&request(None)), 2);
    assert_eq!(capability(None).specificity(&request(Some("rust"))), 1);
    assert_eq!(capability(None).specificity(&request(None)), 1);
    assert_eq!(capability(Some("rust")).specificity(&request(Some("go"))), 0);
    assert_eq!(capability(Some("rust")).specificity(&request(None)), 0);
}

#[test]
fn only_ready_modules_are_routable() {
    assert!(FabricModuleState::Ready.is_routable());
    assert!(!FabricModuleState::Starting.is_routable());
    assert!(!FabricModuleState::Suspended.is_routable());
    assert!(!FabricModuleState::Stopping.is_routable());
    assert!(!FabricModuleState::Stopped.is_routable());
    assert!(!FabricModuleState::Failed.is_routable());
    assert_eq!(FabricModuleState::default(), FabricModuleState::Starting);
}

#[test]
fn health_weighs_in_routing() {
    assert_eq!(FabricHealth::Healthy.routing_rank(), 3);
    assert_eq!(FabricHealth::Unknown.routing_rank(), 2);
    assert_eq!(FabricHealth::Degraded.routing_rank(), 1);
    assert_eq!(FabricHealth::Unhealthy.routing_rank(), 0);
    assert!(FabricHealth::Degraded.is_routable());
    assert!(!FabricHealth::Unhealthy.is_routable());
    assert_eq!(FabricHealth::default(), FabricHealth::Unknown);
}

#[test]
fn registrations_start_out_unknown() {
    let volt_id = VoltID { author: "a".to_string(), name: "b".to_string() };
    let plain = FabricModuleRegistration::new(PluginId(4), volt_id.clone(), "c");
    assert_eq!(plain.plugin_id, PluginId(4));
    assert_eq!(plain.volt_id, volt_id);
    assert_eq!(plain.name, "c");
    assert_eq!(plain.capabilities, vec![]);
    assert_eq!(plain.state, FabricModuleState::Starting);
    assert_eq!(plain.health, FabricHealth::Unknown);
}

#[test]
fn registration_numbers_read_as_decimals() {
    assert_eq!(FabricRegistrationId(0).to_string(), "0");
    assert_eq!(FabricRegistrationId(907).to_string(), "907");
    assert_eq!(FabricRegistrationId(u64::MAX).to_string(), "18446744073709551615");
    assert_eq!(decimal_text(10), "10");
}

#[test]
fn text_is_ordered_by_its_bytes() {
    assert_eq!(compare_text("", ""), Ordering::Equal);
    assert_eq!(compare_text("", "a"), Ordering::Less);
    assert_eq!(compare_text("ab", "a"), Ordering::Greater);
    assert_eq!(compare_text("abc", "abd"), Ordering::Less);
    assert_eq!(compare_text("Z", "a"), Ordering::Less);
    assert_eq!(compare_text("\u{e9}", "z"), Ordering::Greater);
    assert_eq!(compare_text("\u{ffff}", "\u{10000}"), "\u{ffff}".cmp("\u{10000}"));
}

#[test]
fn capabilities_are_compared_part_by_part() {
    let asked = request(Some("rust"));
    let of = |capability| RegisteredCapability::new(capability, CapabilitySource::VoltManifest);
    let exact = of(capability(Some("rust")));
    let generic = of(capability(None).priority(9));
    let urgent = of(capability(Some("rust")).priority(1));
    let go = of(capability(Some("go")));
    let java = of(capability(Some("java")));
    assert_eq!(compare_capabilities(&generic, &exact, &asked), Ordering::Less);
    assert_eq!(compare_capabilities(&urgent, &exact, &asked), Ordering::Greater);
    assert_eq!(compare_capabilities(&go, &java, &asked), Ordering::Less);
    assert_eq!(compare_capabilities(&exact, &exact.clone(), &asked), Ordering::Equal);
    let ahead = of(FabricCapability::new("a", "z"));
    let behind = of(FabricCapability::new("b", "a"));
    assert_eq!(compare_capabilities(&ahead, &behind, &asked), Ordering::Less);
    let second = of(FabricCapability::new("b", "b"));
    assert_eq!(compare_capabilities(&second, &behind, &asked), Ordering::Greater);
}

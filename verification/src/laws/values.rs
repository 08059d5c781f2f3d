//! What values say, what copies keep and what the builders set, field by field.

use crate::fabric_types::{
    CapabilitySource, FabricCandidate, FabricCandidateView, FabricCapability, FabricEvent,
    FabricEventView, FabricHealth, FabricModuleRegistration, FabricModuleSnapshot,
    FabricModuleSnapshotView, FabricModuleState, FabricReport, FabricReportView, FabricRequest,
    FabricRoute, FabricRouteView, FabricSnapshot, PluginId, RegisteredCapability,
    RegisteredCapabilityView, VoltID,
};
use crate::inner::FabricModuleRecord;
use crate::routing::FabricCandidateScore;
use crate::text;
use vstd::prelude::*;

verus! {

// What values say.

/// An optional string says its text, or that there is none.
pub proof fn optional_strings_say_their_text(text: Option<String>)
    ensures
        match text {
            Some(held) => text::optional_text(text) == Some(held@),
            None => text::optional_text(text) is None,
        },
{
}

/// An identity says its author and its name.
pub proof fn volt_ids_say_their_fields(volt_id: VoltID)
    ensures
        volt_id@.author == volt_id.author@,
        volt_id@.name == volt_id.name@,
{
}

/// A capability says its namespace, operation, language and priority.
pub proof fn capabilities_say_their_fields(capability: FabricCapability)
    ensures
        capability@.namespace == capability.namespace@,
        capability@.operation == capability.operation@,
        match capability.language {
            Some(language) => capability@.language == Some(language@),
            None => capability@.language is None,
        },
        capability@.priority == capability.priority,
{
}

/// A request says its namespace, operation and language.
pub proof fn requests_say_their_fields(request: FabricRequest)
    ensures
        request@.namespace == request.namespace@,
        request@.operation == request.operation@,
        match request.language {
            Some(language) => request@.language == Some(language@),
            None => request@.language is None,
        },
{
}

/// A registered capability says its capability and its source.
pub proof fn registered_capabilities_say_their_fields(registered: RegisteredCapability)
    ensures
        registered@.capability == registered.capability@,
        registered@.source == registered.source,
{
}

/// A list says what each of its items says, in the same order.
pub proof fn lists_say_their_items(
    capabilities: Seq<RegisteredCapability>,
    candidates: Seq<FabricCandidate>,
    modules: Seq<FabricModuleSnapshot>,
    events: Seq<FabricEvent>,
)
    ensures
        RegisteredCapabilityView::each(capabilities).len() == capabilities.len(),
        forall|i: int|
            0 <= i < capabilities.len() ==> #[trigger] RegisteredCapabilityView::each(
                capabilities,
            )[i] == capabilities[i]@,
        FabricCandidateView::each(candidates).len() == candidates.len(),
        forall|i: int|
            0 <= i < candidates.len() ==> #[trigger] FabricCandidateView::each(candidates)[i]
                == candidates[i]@,
        FabricModuleSnapshotView::each(modules).len() == modules.len(),
        forall|i: int|
            0 <= i < modules.len() ==> #[trigger] FabricModuleSnapshotView::each(modules)[i]
                == modules[i]@,
        FabricEventView::each(events).len() == events.len(),
        forall|i: int|
            0 <= i < events.len() ==> #[trigger] FabricEventView::each(events)[i] == events[i]@,
{
}

/// A registration says its plugin, identity, name, capabilities, state and health.
pub proof fn registrations_say_their_fields(registration: FabricModuleRegistration)
    ensures
        registration@.plugin_id == registration.plugin_id,
        registration@.volt_id.author == registration.volt_id.author@,
        registration@.volt_id.name == registration.volt_id.name@,
        registration@.name == registration.name@,
        registration@.capabilities.len() == registration.capabilities@.len(),
        forall|i: int|
            0 <= i < registration.capabilities@.len() ==> #[trigger] registration@.capabilities[i]
                == registration.capabilities@[i]@,
        registration@.state == registration.state,
        registration@.health == registration.health,
{
}

/// A report says what is reported.
pub proof fn reports_say_what_they_hold(report: FabricReport)
    ensures
        match report {
            FabricReport::State(state) => report@ == FabricReportView::State(state),
            FabricReport::Health(health) => report@ == FabricReportView::Health(health),
            FabricReport::Capabilities(capabilities) => {
                &&& report@ is Capabilities
                &&& report@->Capabilities_0.len() == capabilities@.len()
                &&& forall|i: int|
                    0 <= i < capabilities@.len() ==> #[trigger] report@->Capabilities_0[i]
                        == capabilities@[i]@
            },
        },
{
}

/// A module's entry says its registration, identity, name, capabilities, state and health.
pub proof fn records_say_their_fields(record: FabricModuleRecord)
    ensures
        record@.registration_id == record.registration_id,
        record@.volt_id.author == record.volt_id.author@,
        record@.volt_id.name == record.volt_id.name@,
        record@.name == record.name@,
        record@.capabilities.len() == record.capabilities@.len(),
        forall|i: int|
            0 <= i < record.capabilities@.len() ==> #[trigger] record@.capabilities[i]
                == record.capabilities@[i]@,
        record@.state == record.state,
        record@.health == record.health,
{
}

/// A candidate says its registration, plugin, identity, name, capability, state and health.
pub proof fn candidates_say_their_fields(candidate: FabricCandidate)
    ensures
        candidate@.registration_id == candidate.registration_id,
        candidate@.plugin_id == candidate.plugin_id,
        candidate@.volt_id.author == candidate.volt_id.author@,
        candidate@.volt_id.name == candidate.volt_id.name@,
        candidate@.name == candidate.name@,
        candidate@.capability == candidate.capability@,
        candidate@.state == candidate.state,
        candidate@.health == candidate.health,
{
}

/// A route says its request, its selected candidate and its candidates in order.
pub proof fn routes_say_their_fields(route: FabricRoute)
    ensures
        route@.request == route.request@,
        route@.selected == route.selected@,
        route@.candidates.len() == route.candidates@.len(),
        forall|i: int|
            0 <= i < route.candidates@.len() ==> #[trigger] route@.candidates[i]
                == route.candidates@[i]@,
        FabricRouteView::of(Some(route)) == Some(route@),
        FabricRouteView::of(None) is None,
{
}

/// A module in a snapshot says its registration, plugin, identity, name, capabilities, state
/// and health.
pub proof fn module_snapshots_say_their_fields(module: FabricModuleSnapshot)
    ensures
        module@.registration_id == module.registration_id,
        module@.plugin_id == module.plugin_id,
        module@.volt_id.author == module.volt_id.author@,
        module@.volt_id.name == module.volt_id.name@,
        module@.name == module.name@,
        module@.capabilities.len() == module.capabilities@.len(),
        forall|i: int|
            0 <= i < module.capabilities@.len() ==> #[trigger] module@.capabilities[i]
                == module.capabilities@[i]@,
        module@.state == module.state,
        module@.health == module.health,
{
}

/// A snapshot says its generation and its modules in order.
pub proof fn snapshots_say_their_fields(snapshot: FabricSnapshot)
    ensures
        snapshot@.generation == snapshot.generation,
        snapshot@.modules.len() == snapshot.modules@.len(),
        forall|i: int|
            0 <= i < snapshot.modules@.len() ==> #[trigger] snapshot@.modules[i]
                == snapshot.modules@[i]@,
{
}

/// An event says what happened and to whom.
pub proof fn events_say_their_fields(event: FabricEvent)
    ensures
        match (event, event@) {
            (
                FabricEvent::Registered { registration_id, plugin_id, name },
                FabricEventView::Registered {
                    registration_id: said_id,
                    plugin_id: said_plugin,
                    name: said_name,
                },
            ) => said_id == registration_id && said_plugin == plugin_id && said_name == name@,
            (
                FabricEvent::Updated { registration_id, plugin_id },
                FabricEventView::Updated { registration_id: said_id, plugin_id: said_plugin },
            ) => said_id == registration_id && said_plugin == plugin_id,
            (
                FabricEvent::Unregistered { registration_id, plugin_id, name },
                FabricEventView::Unregistered {
                    registration_id: said_id,
                    plugin_id: said_plugin,
                    name: said_name,
                },
            ) => said_id == registration_id && said_plugin == plugin_id && said_name == name@,
            (
                FabricEvent::RouteResolved { request, selected },
                FabricEventView::RouteResolved { request: said_request, selected: said_selected },
            ) => said_request == request@ && said_selected == selected@,
            (
                FabricEvent::RouteMiss { request },
                FabricEventView::RouteMiss { request: said_request },
            ) => said_request == request@,
            _ => false,
        },
{
}

// What copies keep.

/// A copy says what the copied value says.
pub proof fn copies_say_the_same(
    volt_id: (&VoltID, VoltID),
    capability: (&FabricCapability, FabricCapability),
    request: (&FabricRequest, FabricRequest),
    registered: (&RegisteredCapability, RegisteredCapability),
    registration: (&FabricModuleRegistration, FabricModuleRegistration),
    candidate: (&FabricCandidate, FabricCandidate),
    route: (&FabricRoute, FabricRoute),
    module: (&FabricModuleSnapshot, FabricModuleSnapshot),
    snapshot: (&FabricSnapshot, FabricSnapshot),
    event: (&FabricEvent, FabricEvent),
)
    ensures
        call_ensures(<VoltID as Clone>::clone, (volt_id.0,), volt_id.1) ==> volt_id.1@
            == volt_id.0@,
        call_ensures(<FabricCapability as Clone>::clone, (capability.0,), capability.1)
            ==> capability.1@ == capability.0@,
        call_ensures(<FabricRequest as Clone>::clone, (request.0,), request.1) ==> request.1@
            == request.0@,
        call_ensures(<RegisteredCapability as Clone>::clone, (registered.0,), registered.1)
            ==> registered.1@ == registered.0@,
        call_ensures(
            <FabricModuleRegistration as Clone>::clone,
            (registration.0,),
            registration.1,
        ) ==> registration.1@ == registration.0@,
        call_ensures(<FabricCandidate as Clone>::clone, (candidate.0,), candidate.1)
            ==> candidate.1@ == candidate.0@,
        call_ensures(<FabricRoute as Clone>::clone, (route.0,), route.1) ==> route.1@ == route.0@,
        call_ensures(<FabricModuleSnapshot as Clone>::clone, (module.0,), module.1) ==> module.1@
            == module.0@,
        call_ensures(<FabricSnapshot as Clone>::clone, (snapshot.0,), snapshot.1) ==> snapshot.1@
            == snapshot.0@,
        call_ensures(<FabricEvent as Clone>::clone, (event.0,), event.1) ==> event.1@ == event.0@,
{
}

/// A copy of a score has the same parts.
pub proof fn copied_scores_have_the_same_parts(
    score: &FabricCandidateScore,
    copy: FabricCandidateScore,
)
    requires
        call_ensures(<FabricCandidateScore as Clone>::clone, (score,), copy),
    ensures
        copy.health == score.health,
        copy.specificity == score.specificity,
        copy.priority == score.priority,
{
}

// What the builders set.

/// A new capability has the given names, no language and priority zero.
pub proof fn new_capabilities_are_generic<N: Into<String>, O: Into<String>>(
    namespace: N,
    operation: O,
    capability: FabricCapability,
)
    requires
        call_ensures(FabricCapability::new::<N, O>, (namespace, operation), capability),
    ensures
        call_ensures(<N as Into<String>>::into, (namespace,), capability.namespace),
        call_ensures(<O as Into<String>>::into, (operation,), capability.operation),
        capability.language is None,
        capability.priority == 0,
{
}

/// Naming a language sets the language and nothing else.
pub proof fn naming_a_language_sets_it_alone<L: Into<String>>(
    capability: FabricCapability,
    language: L,
    named: FabricCapability,
)
    requires
        call_ensures(FabricCapability::language::<L>, (capability, language), named),
    ensures
        named.language is Some,
        call_ensures(<L as Into<String>>::into, (language,), named.language.unwrap()),
        named.namespace@ == capability.namespace@,
        named.operation@ == capability.operation@,
        named.priority == capability.priority,
{
    capabilities_say_their_fields(named);
    capabilities_say_their_fields(capability);
    assert(named@.namespace == capability@.namespace);
}

/// Giving a priority sets the priority and nothing else.
pub proof fn giving_a_priority_sets_it_alone(
    capability: FabricCapability,
    priority: i32,
    given: FabricCapability,
)
    requires
        call_ensures(FabricCapability::priority, (capability, priority), given),
    ensures
        given.priority == priority,
        given.namespace@ == capability.namespace@,
        given.operation@ == capability.operation@,
        given@.language == capability@.language,
{
}

/// A new request has the given names and no language.
pub proof fn new_requests_name_no_language<N: Into<String>, O: Into<String>>(
    namespace: N,
    operation: O,
    request: FabricRequest,
)
    requires
        call_ensures(FabricRequest::new::<N, O>, (namespace, operation), request),
    ensures
        call_ensures(<N as Into<String>>::into, (namespace,), request.namespace),
        call_ensures(<O as Into<String>>::into, (operation,), request.operation),
        request.language is None,
{
}

/// Asking for a language sets the language and nothing else.
pub proof fn asking_for_a_language_sets_it_alone<L: Into<String>>(
    request: FabricRequest,
    language: L,
    asked: FabricRequest,
)
    requires
        call_ensures(FabricRequest::language::<L>, (request, language), asked),
    ensures
        asked.language is Some,
        call_ensures(<L as Into<String>>::into, (language,), asked.language.unwrap()),
        asked.namespace@ == request.namespace@,
        asked.operation@ == request.operation@,
{
    assert(asked@.namespace == request@.namespace);
}

/// A registered capability keeps the capability and its source.
pub proof fn registered_capabilities_keep_both_parts(
    capability: FabricCapability,
    source: CapabilitySource,
    registered: RegisteredCapability,
)
    requires
        call_ensures(RegisteredCapability::new, (capability, source), registered),
    ensures
        registered.capability.namespace@ == capability.namespace@,
        registered.capability.operation@ == capability.operation@,
        registered.capability@.language == capability@.language,
        registered.capability.priority == capability.priority,
        registered.source == source,
{
    assert(registered@.capability == capability@);
}

/// A new registration is of the given plugin, starts in unknown health and offers nothing.
pub proof fn new_registrations_start_out_unknown<N: Into<String>>(
    plugin_id: PluginId,
    volt_id: VoltID,
    name: N,
    registration: FabricModuleRegistration,
)
    requires
        call_ensures(FabricModuleRegistration::new::<N>, (plugin_id, volt_id, name), registration),
    ensures
        registration.plugin_id == plugin_id,
        registration.volt_id.author@ == volt_id.author@,
        registration.volt_id.name@ == volt_id.name@,
        call_ensures(<N as Into<String>>::into, (name,), registration.name),
        registration.capabilities@.len() == 0,
        registration.state is Starting,
        registration.health is Unknown,
{
    assert(registration@.volt_id == volt_id@);
    assert(registration@.capabilities.len() == 0);
}

/// Setting what a registration offers sets that and nothing else.
pub proof fn offering_sets_the_offer_alone(
    registration: FabricModuleRegistration,
    capabilities: Vec<RegisteredCapability>,
    offering: FabricModuleRegistration,
)
    requires
        call_ensures(
            FabricModuleRegistration::capabilities,
            (registration, capabilities),
            offering,
        ),
    ensures
        offering.capabilities@.len() == capabilities@.len(),
        forall|i: int|
            0 <= i < capabilities@.len() ==> (#[trigger] offering.capabilities@[i])@
                == capabilities@[i]@,
        offering.plugin_id == registration.plugin_id,
        offering.volt_id.author@ == registration.volt_id.author@,
        offering.volt_id.name@ == registration.volt_id.name@,
        offering.name@ == registration.name@,
        offering.state == registration.state,
        offering.health == registration.health,
{
    assert(offering@.volt_id == registration@.volt_id);
    let said = RegisteredCapabilityView::each(capabilities@);
    assert(offering@.capabilities == said);
    assert(said.len() == capabilities@.len());
    assert forall|i: int| 0 <= i < capabilities@.len() implies (
    #[trigger] offering.capabilities@[i])@ == capabilities@[i]@ by {
        assert(offering@.capabilities[i] == said[i]);
    }
}

/// Setting a registration's state sets that and nothing else.
pub proof fn setting_the_state_sets_it_alone(
    registration: FabricModuleRegistration,
    state: FabricModuleState,
    set: FabricModuleRegistration,
)
    requires
        call_ensures(FabricModuleRegistration::state, (registration, state), set),
    ensures
        set.state == state,
        set.plugin_id == registration.plugin_id,
        set.volt_id.author@ == registration.volt_id.author@,
        set.volt_id.name@ == registration.volt_id.name@,
        set.name@ == registration.name@,
        set@.capabilities == registration@.capabilities,
        set.health == registration.health,
{
    assert(set@.volt_id == registration@.volt_id);
}

/// Setting a registration's health sets that and nothing else.
pub proof fn setting_the_health_sets_it_alone(
    registration: FabricModuleRegistration,
    health: FabricHealth,
    set: FabricModuleRegistration,
)
    requires
        call_ensures(FabricModuleRegistration::health, (registration, health), set),
    ensures
        set.health == health,
        set.plugin_id == registration.plugin_id,
        set.volt_id.author@ == registration.volt_id.author@,
        set.volt_id.name@ == registration.volt_id.name@,
        set.name@ == registration.name@,
        set@.capabilities == registration@.capabilities,
        set.state == registration.state,
{
    assert(set@.volt_id == registration@.volt_id);
}

/// Where nothing is said a module is starting and its health is unknown.
pub proof fn defaults_are_starting_and_unknown(state: FabricModuleState, health: FabricHealth)
    requires
        call_ensures(<FabricModuleState as Default>::default, (), state),
        call_ensures(<FabricHealth as Default>::default, (), health),
    ensures
        state is Starting,
        health is Unknown,
{
}

} // verus!

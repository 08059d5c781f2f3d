//! What each operation on a shared fabric does, over the states it went between.

use crate::fabric::WasmFabric;
use crate::fabric_types::{
    FabricEvent, FabricHealth, FabricModuleRegistration, FabricModuleState, FabricRegistrationId,
    FabricReport, FabricReportOutcome, FabricReportView, FabricRequest, FabricRoute,
    FabricSnapshot, PluginId, RegisteredCapability, RegisteredCapabilityView,
};
use crate::model::{FabricStep, FabricView};
use crate::routing::{DefaultFabricRoutingPolicy, FabricRoutingPolicy};
use std::sync::Arc;
use vstd::prelude::*;

verus! {

/// A new shared fabric is empty and keeps the policy it was given, or the default one.
pub proof fn new_shared_fabrics_are_empty<P: FabricRoutingPolicy + ?Sized>(
    policy: Arc<P>,
    given: WasmFabric<P>,
    new: WasmFabric<DefaultFabricRoutingPolicy>,
    default: WasmFabric<DefaultFabricRoutingPolicy>,
)
    requires
        call_ensures(WasmFabric::<P>::with_policy, (policy,), given),
        call_ensures(WasmFabric::<DefaultFabricRoutingPolicy>::new, (), new),
        call_ensures(
            <WasmFabric<DefaultFabricRoutingPolicy> as Default>::default,
            (),
            default,
        ),
    ensures
        given.started_as() == FabricView::empty(),
        given.policy() == policy,
        new.started_as() == FabricView::empty(),
        *new.policy() == DefaultFabricRoutingPolicy,
        default.started_as() == FabricView::empty(),
        *default.policy() == DefaultFabricRoutingPolicy,
{
}

/// A registration takes the fabric in one step from a state to the state in which the module
/// is registered, and is answered with the number that the module then has.
pub proof fn shared_registering_registers<P: FabricRoutingPolicy + ?Sized>(
    fabric: &WasmFabric<P>,
    registration: FabricModuleRegistration,
    id: FabricRegistrationId,
)
    requires
        call_ensures(WasmFabric::<P>::register, (fabric, registration), id),
    ensures
        exists|before: FabricView, after: FabricView| #[trigger]
            fabric.went(before, after) && {
                &&& after == before.registered(registration@)
                &&& id.0 == before.next_registration_id
                &&& after.modules[registration.plugin_id.0].registration_id == id
                &&& after.modules[registration.plugin_id.0].state == registration.state
                &&& after.modules[registration.plugin_id.0].health == registration.health
                &&& after.modules[registration.plugin_id.0].name == registration.name@
            },
{
    let before = choose|before: FabricView| #[trigger]
        fabric.went(before, before.registered(registration@)) && id == before.fresh_id();
    let after = before.registered(registration@);
    crate::laws::operations::registering_keeps_what_was_given(before, registration@, 0);
    assert(fabric.went(before, after));
}

/// Letting a plugin go takes the fabric in one step to the state without it, or leaves it
/// where the number is not the plugin's, and says which.
pub proof fn shared_unregistering_unregisters<P: FabricRoutingPolicy + ?Sized>(
    fabric: &WasmFabric<P>,
    plugin_id: PluginId,
    registration_id: FabricRegistrationId,
    removed: bool,
)
    requires
        call_ensures(WasmFabric::<P>::unregister, (fabric, plugin_id, registration_id), removed),
    ensures
        exists|before: FabricView, after: FabricView| #[trigger]
            fabric.went(before, after) && {
                &&& after == before.unregistered(plugin_id, registration_id)
                &&& removed <==> {
                    &&& before.modules.contains_key(plugin_id.0)
                    &&& before.modules[plugin_id.0].registration_id == registration_id
                }
                &&& removed ==> !after.modules.contains_key(plugin_id.0)
            },
{
    let before = choose|before: FabricView| #[trigger]
        fabric.went(before, before.unregistered(plugin_id, registration_id)) && removed
            == before.is_current(plugin_id, registration_id);
    let after = before.unregistered(plugin_id, registration_id);
    assert(fabric.went(before, after));
}

/// A report takes the fabric in one step to the state in which it is recorded, or leaves it
/// where the number is not the plugin's, and says which.
pub proof fn shared_reporting_reports<P: FabricRoutingPolicy + ?Sized>(
    fabric: &WasmFabric<P>,
    plugin_id: PluginId,
    registration_id: FabricRegistrationId,
    report: FabricReport,
    outcome: FabricReportOutcome,
)
    requires
        call_ensures(
            WasmFabric::<P>::report,
            (fabric, plugin_id, registration_id, report),
            outcome,
        ),
    ensures
        exists|before: FabricView, after: FabricView| #[trigger]
            fabric.went(before, after) && {
                &&& after == before.reported(plugin_id, registration_id, report@)
                &&& outcome is Unknown <==> !before.modules.contains_key(plugin_id.0)
                &&& outcome is Applied <==> before.modules.contains_key(plugin_id.0)
                    && before.modules[plugin_id.0].registration_id == registration_id
            },
{
    let before = choose|before: FabricView| #[trigger]
        fabric.went(before, before.reported(plugin_id, registration_id, report@)) && outcome
            == before.report_outcome(plugin_id, registration_id);
    let after = before.reported(plugin_id, registration_id, report@);
    assert(fabric.went(before, after));
}

/// Updating a state is reporting it, and says whether the number was the plugin's.
pub proof fn shared_updating_the_state_reports_it<P: FabricRoutingPolicy + ?Sized>(
    fabric: &WasmFabric<P>,
    plugin_id: PluginId,
    registration_id: FabricRegistrationId,
    state: FabricModuleState,
    updated: bool,
)
    requires
        call_ensures(
            WasmFabric::<P>::update_state,
            (fabric, plugin_id, registration_id, state),
            updated,
        ),
    ensures
        exists|before: FabricView, after: FabricView| #[trigger]
            fabric.went(before, after) && {
                &&& after == before.reported(
                    plugin_id,
                    registration_id,
                    FabricReportView::State(state),
                )
                &&& updated <==> before.modules.contains_key(plugin_id.0)
                    && before.modules[plugin_id.0].registration_id == registration_id
            },
{
    let before = choose|before: FabricView| #[trigger]
        fabric.went(before, before.with_state(plugin_id, registration_id, state)) && updated
            == before.is_current(plugin_id, registration_id);
    assert(fabric.went(before, before.with_state(plugin_id, registration_id, state)));
}

/// Updating a health is reporting it, and says whether the number was the plugin's.
pub proof fn shared_updating_the_health_reports_it<P: FabricRoutingPolicy + ?Sized>(
    fabric: &WasmFabric<P>,
    plugin_id: PluginId,
    registration_id: FabricRegistrationId,
    health: FabricHealth,
    updated: bool,
)
    requires
        call_ensures(
            WasmFabric::<P>::update_health,
            (fabric, plugin_id, registration_id, health),
            updated,
        ),
    ensures
        exists|before: FabricView, after: FabricView| #[trigger]
            fabric.went(before, after) && {
                &&& after == before.reported(
                    plugin_id,
                    registration_id,
                    FabricReportView::Health(health),
                )
                &&& updated <==> before.modules.contains_key(plugin_id.0)
                    && before.modules[plugin_id.0].registration_id == registration_id
            },
{
    let before = choose|before: FabricView| #[trigger]
        fabric.went(before, before.with_health(plugin_id, registration_id, health)) && updated
            == before.is_current(plugin_id, registration_id);
    assert(fabric.went(before, before.with_health(plugin_id, registration_id, health)));
}

/// Updating an offer is reporting it, and says whether the number was the plugin's.
pub proof fn shared_updating_the_offer_reports_it<P: FabricRoutingPolicy + ?Sized>(
    fabric: &WasmFabric<P>,
    plugin_id: PluginId,
    registration_id: FabricRegistrationId,
    capabilities: Vec<RegisteredCapability>,
    updated: bool,
)
    requires
        call_ensures(
            WasmFabric::<P>::update_capabilities,
            (fabric, plugin_id, registration_id, capabilities),
            updated,
        ),
    ensures
        exists|before: FabricView, after: FabricView| #[trigger]
            fabric.went(before, after) && {
                &&& after == before.reported(
                    plugin_id,
                    registration_id,
                    FabricReportView::Capabilities(
                        Seq::new(capabilities@.len(), |i: int| capabilities@[i]@),
                    ),
                )
                &&& updated <==> before.modules.contains_key(plugin_id.0)
                    && before.modules[plugin_id.0].registration_id == registration_id
            },
{
    let offer = RegisteredCapabilityView::each(capabilities@);
    assert(offer =~= Seq::new(capabilities@.len(), |i: int| capabilities@[i]@));
    let before = choose|before: FabricView| #[trigger]
        fabric.went(before, before.with_capabilities(plugin_id, registration_id, offer)) && updated
            == before.is_current(plugin_id, registration_id);
    assert(fabric.went(before, before.with_capabilities(plugin_id, registration_id, offer)));
}

/// Routing a request finds a route of the state it meets, by the fabric's own policy, and
/// takes the fabric in one step to the state in which the outcome is noted.
pub proof fn shared_routing_routes_by_the_policy<P: FabricRoutingPolicy + ?Sized>(
    fabric: &WasmFabric<P>,
    request: FabricRequest,
    outcome: Option<FabricRoute>,
)
    requires
        call_ensures(WasmFabric::<P>::route, (fabric, request), outcome),
    ensures
        exists|before: FabricView, after: FabricView| #[trigger]
            fabric.went(before, after) && {
                let found = if outcome is Some {
                    Some(outcome.unwrap()@)
                } else {
                    None
                };
                &&& after == before.routed(request@, found)
                &&& before.is_route(request@, &*fabric.policy(), found)
            },
{
    let found = if outcome is Some {
        Some(outcome.unwrap()@)
    } else {
        None
    };
    let before = choose|before: FabricView| #[trigger]
        fabric.went(before, before.routed(request@, found)) && before.is_route(
            request@,
            &*fabric.policy(),
            found,
        );
    assert(fabric.went(before, before.routed(request@, found)));
}

/// A snapshot is of a state that the fabric was in.
pub proof fn shared_snapshots_show_a_state<P: FabricRoutingPolicy + ?Sized>(
    fabric: &WasmFabric<P>,
    snapshot: FabricSnapshot,
)
    requires
        call_ensures(WasmFabric::<P>::snapshot, (fabric,), snapshot),
    ensures
        exists|state: FabricView| #[trigger]
            fabric.was_in(state) && state.is_snapshot(snapshot@) && state.generation
                == snapshot.generation,
{
}

/// A look at the events gives those of a state that the fabric was in, in order.
pub proof fn shared_events_are_those_of_a_state<P: FabricRoutingPolicy + ?Sized>(
    fabric: &WasmFabric<P>,
    events: Vec<FabricEvent>,
)
    requires
        call_ensures(WasmFabric::<P>::events, (fabric,), events),
    ensures
        exists|state: FabricView| #[trigger]
            fabric.was_in(state) && state.events =~= Seq::new(
                events@.len(),
                |i: int| events@[i]@,
            ),
{
}

/// Draining hands out the events of the state it meets, in order, and takes the fabric in one
/// step to the state without them.
pub proof fn shared_draining_hands_out_and_forgets<P: FabricRoutingPolicy + ?Sized>(
    fabric: &WasmFabric<P>,
    events: Vec<FabricEvent>,
)
    requires
        call_ensures(WasmFabric::<P>::drain_events, (fabric,), events),
    ensures
        exists|before: FabricView, after: FabricView| #[trigger]
            fabric.went(before, after) && {
                &&& before.events =~= Seq::new(events@.len(), |i: int| events@[i]@)
                &&& after.events.len() == 0
                &&& after == before.drained()
            },
{
    let before = choose|before: FabricView| #[trigger]
        fabric.went(before, before.drained())
            && crate::fabric_types::FabricEventView::each(events@) == before.events;
    assert(fabric.went(before, before.drained()));
}

/// A state that was met is one that operations led to from the empty fabric, and so is a state
/// that a step ended in.
pub proof fn met_states_come_from_the_empty_fabric<P: FabricRoutingPolicy + ?Sized>(
    fabric: &WasmFabric<P>,
    before: FabricView,
    after: FabricView,
    state: FabricView,
)
    requires
        fabric.went(before, after),
        FabricStep::leads(before, after),
        fabric.was_in(state),
    ensures
        FabricStep::reaches(FabricView::empty(), before),
        FabricStep::reaches(FabricView::empty(), after),
        FabricStep::reaches(FabricView::empty(), state),
{
    crate::laws::steps_reach(before, after);
    crate::laws::reaching_is_transitive(FabricView::empty(), before, after);
}

} // verus!

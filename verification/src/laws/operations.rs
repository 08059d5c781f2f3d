//! What each operation makes of a fabric, over the fields of its modules, events and counters.

use crate::fabric_types::{
    FabricEvent, FabricEventView, FabricHealth, FabricModuleRegistration,
    FabricModuleRegistrationView, FabricModuleState, FabricRegistrationId, FabricReport,
    FabricReportOutcome, FabricReportView, FabricRequest, FabricRequestView, FabricRoute,
    FabricRouteView, FabricSnapshot, FabricSnapshotView, PluginId, RegisteredCapability,
    RegisteredCapabilityView,
};
use crate::inner::{FabricInner, FabricModuleRecord};
use crate::model::{FabricStep, FabricView};
use crate::routing::FabricRoutingPolicy;
use vstd::prelude::*;

verus! {

// The start.

/// The empty fabric has no modules and no events, is in generation zero, and counts
/// registrations and generations from one.
pub proof fn the_empty_fabric_has_nothing(plugin: u64)
    ensures
        !FabricView::empty().modules.contains_key(plugin),
        FabricView::empty().events.len() == 0,
        FabricView::empty().generation == 0,
        FabricView::empty().next_registration_id == 1,
        FabricView::empty().next_generation == 1,
{
}

/// A new fabric is the empty one.
pub proof fn new_fabrics_are_empty(inner: FabricInner)
    requires
        call_ensures(FabricInner::new, (), inner),
    ensures
        inner@ == FabricView::empty(),
{
}

// Registration.

/// A registration is current exactly when the plugin stands in the fabric under that number.
pub proof fn current_is_the_number_that_stands(
    fabric: FabricView,
    plugin_id: PluginId,
    registration_id: FabricRegistrationId,
)
    ensures
        fabric.is_current(plugin_id, registration_id) <==> fabric.modules.contains_key(plugin_id.0)
            && fabric.modules[plugin_id.0].registration_id.0 == registration_id.0,
        fabric.fresh_id().0 == fabric.next_registration_id,
{
}

/// After a registration the module under its plugin number has the next registration number,
/// and the identity, name, capabilities, state and health that were given; the others stand
/// as before. One event is noted, for a plugin that was there an update and else a
/// registration. The next generation begins and both counters go one on, round after the
/// greatest.
pub proof fn registering_keeps_what_was_given(
    fabric: FabricView,
    registration: FabricModuleRegistrationView,
    other: u64,
)
    ensures
        ({
            let plugin = registration.plugin_id.0;
            let after = fabric.registered(registration);
            let module = after.modules[plugin];
            &&& after.modules.contains_key(plugin)
            &&& module.registration_id.0 == fabric.next_registration_id
            &&& module.volt_id.author == registration.volt_id.author
            &&& module.volt_id.name == registration.volt_id.name
            &&& module.name == registration.name
            &&& module.capabilities == registration.capabilities
            &&& module.state == registration.state
            &&& module.health == registration.health
            &&& other != plugin ==> {
                &&& after.modules.contains_key(other) <==> fabric.modules.contains_key(other)
                &&& after.modules[other] == fabric.modules[other]
            }
        }),
        ({
            let after = fabric.registered(registration);
            let id = FabricRegistrationId(fabric.next_registration_id);
            let plugin_id = registration.plugin_id;
            &&& fabric.modules.contains_key(plugin_id.0) ==> after.events == fabric.events.push(
                FabricEventView::Updated { registration_id: id, plugin_id },
            )
            &&& !fabric.modules.contains_key(plugin_id.0) ==> after.events == fabric.events.push(
                FabricEventView::Registered {
                    registration_id: id,
                    plugin_id,
                    name: registration.name,
                },
            )
            &&& after.generation == fabric.next_generation
            &&& after.next_generation == (fabric.next_generation + 1) % 0x1_0000_0000_0000_0000
            &&& after.next_registration_id == (fabric.next_registration_id + 1)
                % 0x1_0000_0000_0000_0000
        }),
{
}

/// A registration is answered with the next number, and does to the fabric what
/// `registering_keeps_what_was_given` says.
pub proof fn registering_hands_out_the_next_number(
    registration: FabricModuleRegistration,
    id: FabricRegistrationId,
)
    ensures
        forall|inner: &mut FabricInner| #[trigger]
            call_ensures(FabricInner::register, (inner, registration), id) ==> {
                &&& id.0 == (*inner)@.next_registration_id
                &&& (*final(inner))@ == (*inner)@.registered(registration@)
                &&& (*final(inner))@.modules[registration.plugin_id.0].registration_id == id
            },
{
}

/// A snapshot after a registration shows the plugin under the number that was handed out, with
/// the identity, name, capabilities, state and health of the registration.
pub proof fn snapshots_show_what_was_registered(
    registration: FabricModuleRegistration,
    id: FabricRegistrationId,
    snapshot: FabricSnapshot,
)
    ensures
        forall|inner: &mut FabricInner| #[trigger]
            call_ensures(FabricInner::register, (inner, registration), id) && call_ensures(
                FabricInner::snapshot,
                (&*final(inner),),
                snapshot,
            ) ==> exists|i: int|
                {
                    &&& 0 <= i < snapshot.modules@.len()
                    &&& (#[trigger] snapshot.modules@[i]).plugin_id == registration.plugin_id
                    &&& snapshot.modules@[i].registration_id == id
                    &&& snapshot.modules@[i].volt_id.author@ == registration.volt_id.author@
                    &&& snapshot.modules@[i].volt_id.name@ == registration.volt_id.name@
                    &&& snapshot.modules@[i].name@ == registration.name@
                    &&& snapshot.modules@[i].state == registration.state
                    &&& snapshot.modules@[i].health == registration.health
                    &&& snapshot.modules@[i].capabilities@.len()
                        == registration.capabilities@.len()
                    &&& forall|k: int|
                        0 <= k < registration.capabilities@.len() ==> (
                        #[trigger] snapshot.modules@[i].capabilities@[k])@
                            == registration.capabilities@[k]@
                },
{
    assert forall|inner: &mut FabricInner| #[trigger]
        call_ensures(FabricInner::register, (inner, registration), id) && call_ensures(
            FabricInner::snapshot,
            (&*final(inner),),
            snapshot,
        ) implies exists|i: int|
        {
            &&& 0 <= i < snapshot.modules@.len()
            &&& (#[trigger] snapshot.modules@[i]).plugin_id == registration.plugin_id
            &&& snapshot.modules@[i].registration_id == id
            &&& snapshot.modules@[i].volt_id.author@ == registration.volt_id.author@
            &&& snapshot.modules@[i].volt_id.name@ == registration.volt_id.name@
            &&& snapshot.modules@[i].name@ == registration.name@
            &&& snapshot.modules@[i].state == registration.state
            &&& snapshot.modules@[i].health == registration.health
            &&& snapshot.modules@[i].capabilities@.len() == registration.capabilities@.len()
            &&& forall|k: int|
                0 <= k < registration.capabilities@.len() ==> (
                #[trigger] snapshot.modules@[i].capabilities@[k])@
                    == registration.capabilities@[k]@
        } by {
        let after = (*final(inner))@;
        let plugin = registration.plugin_id.0;
        snapshots_show_every_module_as_it_stands(after, snapshot@);
        assert(after.modules.contains_key(plugin));
        let i = choose|i: int|
            0 <= i < snapshot@.modules.len() && (#[trigger] snapshot@.modules[i]).plugin_id.0
                == plugin;
        let shown = snapshot.modules@[i];
        assert(snapshot@.modules[i] == shown@);
        crate::laws::values::registrations_say_their_fields(registration);
        crate::laws::values::module_snapshots_say_their_fields(shown);
        assert(shown@.capabilities == registration@.capabilities);
        assert forall|k: int| 0 <= k < registration.capabilities@.len() implies (
        #[trigger] shown.capabilities@[k])@ == registration.capabilities@[k]@ by {
            assert(shown@.capabilities[k] == registration@.capabilities[k]);
        }
    }
}

/// Letting a plugin go under its current registration takes it out and leaves the others. One
/// event is noted, with the name that the plugin had, and the next generation begins. Under
/// another registration nothing changes.
pub proof fn unregistering_takes_out_the_current_alone(
    fabric: FabricView,
    plugin_id: PluginId,
    registration_id: FabricRegistrationId,
    other: u64,
)
    ensures
        ({
            let after = fabric.unregistered(plugin_id, registration_id);
            let current = fabric.modules.contains_key(plugin_id.0)
                && fabric.modules[plugin_id.0].registration_id == registration_id;
            &&& !current ==> after == fabric
            &&& current ==> {
                &&& !after.modules.contains_key(plugin_id.0)
                &&& other != plugin_id.0 ==> {
                    &&& after.modules.contains_key(other) <==> fabric.modules.contains_key(other)
                    &&& fabric.modules.contains_key(other) ==> after.modules[other]
                        == fabric.modules[other]
                }
                &&& after.events == fabric.events.push(
                    FabricEventView::Unregistered {
                        registration_id,
                        plugin_id,
                        name: fabric.modules[plugin_id.0].name,
                    },
                )
                &&& after.generation == fabric.next_generation
                &&& after.next_generation == (fabric.next_generation + 1)
                    % 0x1_0000_0000_0000_0000
                &&& after.next_registration_id == fabric.next_registration_id
            }
        }),
{
}

/// A plugin is let go exactly when the registration is current, and then a snapshot shows it no
/// more.
pub proof fn unregistered_plugins_are_gone(
    plugin_id: PluginId,
    registration_id: FabricRegistrationId,
    removed: bool,
    snapshot: FabricSnapshot,
)
    ensures
        forall|inner: &mut FabricInner| #[trigger]
            call_ensures(FabricInner::unregister, (inner, plugin_id, registration_id), removed)
                ==> {
                &&& removed <==> {
                    &&& (*inner)@.modules.contains_key(plugin_id.0)
                    &&& (*inner)@.modules[plugin_id.0].registration_id == registration_id
                }
                &&& (*final(inner))@ == (*inner)@.unregistered(plugin_id, registration_id)
                &&& removed && call_ensures(
                    FabricInner::snapshot,
                    (&*final(inner),),
                    snapshot,
                ) ==> forall|i: int|
                    0 <= i < snapshot.modules@.len() ==> (
                    #[trigger] snapshot.modules@[i]).plugin_id != plugin_id
            },
{
    assert forall|inner: &mut FabricInner| #[trigger]
        call_ensures(FabricInner::unregister, (inner, plugin_id, registration_id), removed)
            && removed && call_ensures(
            FabricInner::snapshot,
            (&*final(inner),),
            snapshot,
        ) implies forall|i: int|
        0 <= i < snapshot.modules@.len() ==> (#[trigger] snapshot.modules@[i]).plugin_id
            != plugin_id by {
        snapshots_show_every_module_as_it_stands((*final(inner))@, snapshot@);
        assert forall|i: int| 0 <= i < snapshot.modules@.len() implies (
        #[trigger] snapshot.modules@[i]).plugin_id != plugin_id by {
            assert(snapshot@.modules[i] == snapshot.modules@[i]@);
        }
    }
}

// Reports.

/// A report under the current registration sets the one thing reported and leaves the rest of
/// the module, and the other modules. The events after it are the events before it followed
/// by one update of the plugin, and the next generation begins, whatever is reported.
pub proof fn reports_set_one_thing_and_are_noted(
    fabric: FabricView,
    plugin_id: PluginId,
    registration_id: FabricRegistrationId,
    report: FabricReportView,
    other: u64,
)
    requires
        fabric.modules.contains_key(plugin_id.0),
        fabric.modules[plugin_id.0].registration_id == registration_id,
    ensures
        ({
            let before = fabric.modules[plugin_id.0];
            let after = fabric.reported(plugin_id, registration_id, report);
            let module = after.modules[plugin_id.0];
            &&& after.modules.contains_key(plugin_id.0)
            &&& module.registration_id == registration_id
            &&& module.volt_id == before.volt_id
            &&& module.name == before.name
            &&& module.state == if let FabricReportView::State(state) = report {
                state
            } else {
                before.state
            }
            &&& module.health == if let FabricReportView::Health(health) = report {
                health
            } else {
                before.health
            }
            &&& module.capabilities == if let FabricReportView::Capabilities(offer) = report {
                offer
            } else {
                before.capabilities
            }
            &&& other != plugin_id.0 ==> {
                &&& after.modules.contains_key(other) <==> fabric.modules.contains_key(other)
                &&& after.modules[other] == fabric.modules[other]
            }
            &&& after.events == fabric.events.push(
                FabricEventView::Updated { registration_id, plugin_id },
            )
            &&& after.generation == fabric.next_generation
            &&& after.next_generation == (fabric.next_generation + 1) % 0x1_0000_0000_0000_0000
            &&& after.next_registration_id == fabric.next_registration_id
        }),
{
}

/// A report under a registration that is not the plugin's changes nothing at all.
pub proof fn refused_reports_leave_everything(
    fabric: FabricView,
    plugin_id: PluginId,
    registration_id: FabricRegistrationId,
    report: FabricReportView,
)
    requires
        !fabric.modules.contains_key(plugin_id.0) || fabric.modules[plugin_id.0].registration_id
            != registration_id,
    ensures
        fabric.reported(plugin_id, registration_id, report).modules == fabric.modules,
        fabric.reported(plugin_id, registration_id, report).events == fabric.events,
        fabric.reported(plugin_id, registration_id, report).generation == fabric.generation,
        fabric.reported(plugin_id, registration_id, report).next_generation
            == fabric.next_generation,
        fabric.reported(plugin_id, registration_id, report).next_registration_id
            == fabric.next_registration_id,
{
}

/// A report is applied under the plugin's own number, stale under another, and unknown where
/// the plugin does not stand in the fabric.
pub proof fn outcomes_tell_stale_from_unknown(
    fabric: FabricView,
    plugin_id: PluginId,
    registration_id: FabricRegistrationId,
)
    ensures
        ({
            let outcome = fabric.report_outcome(plugin_id, registration_id);
            let number = fabric.modules[plugin_id.0].registration_id.0;
            &&& !fabric.modules.contains_key(plugin_id.0) ==> outcome is Unknown
            &&& fabric.modules.contains_key(plugin_id.0) && number == registration_id.0
                ==> outcome is Applied
            &&& fabric.modules.contains_key(plugin_id.0) && number != registration_id.0
                ==> outcome is Stale
        }),
{
}

/// Reporting a state, a health or an offer by itself is the report of it.
pub proof fn single_updates_are_reports(
    fabric: FabricView,
    plugin_id: PluginId,
    registration_id: FabricRegistrationId,
    state: FabricModuleState,
    health: FabricHealth,
    capabilities: Seq<RegisteredCapabilityView>,
)
    ensures
        fabric.with_state(plugin_id, registration_id, state) == fabric.reported(
            plugin_id,
            registration_id,
            FabricReportView::State(state),
        ),
        fabric.with_health(plugin_id, registration_id, health) == fabric.reported(
            plugin_id,
            registration_id,
            FabricReportView::Health(health),
        ),
        fabric.with_capabilities(plugin_id, registration_id, capabilities) == fabric.reported(
            plugin_id,
            registration_id,
            FabricReportView::Capabilities(capabilities),
        ),
{
}

/// The events after an applied report are the events before it and one update of the plugin;
/// after one that was not applied they are the events before it.
pub proof fn applied_reports_are_among_the_events(
    plugin_id: PluginId,
    registration_id: FabricRegistrationId,
    report: FabricReport,
    outcome: FabricReportOutcome,
    before: Vec<FabricEvent>,
    after: Vec<FabricEvent>,
)
    ensures
        forall|inner: &mut FabricInner| #[trigger]
            call_ensures(
                FabricInner::report,
                (inner, plugin_id, registration_id, report),
                outcome,
            ) && call_ensures(FabricInner::events, (&*inner,), before) && call_ensures(
                FabricInner::events,
                (&*final(inner),),
                after,
            ) ==> {
                &&& forall|i: int|
                    0 <= i < before@.len() ==> (#[trigger] after@[i])@ == before@[i]@
                &&& outcome is Applied ==> {
                    &&& after@.len() == before@.len() + 1
                    &&& after@.last() == (FabricEvent::Updated { registration_id, plugin_id })
                }
                &&& !(outcome is Applied) ==> after@.len() == before@.len()
            },
{
    assert forall|inner: &mut FabricInner| #[trigger]
        call_ensures(
            FabricInner::report,
            (inner, plugin_id, registration_id, report),
            outcome,
        ) && call_ensures(FabricInner::events, (&*inner,), before) && call_ensures(
            FabricInner::events,
            (&*final(inner),),
            after,
        ) implies {
        &&& forall|i: int| 0 <= i < before@.len() ==> (#[trigger] after@[i])@ == before@[i]@
        &&& outcome is Applied ==> {
            &&& after@.len() == before@.len() + 1
            &&& after@.last() == (FabricEvent::Updated { registration_id, plugin_id })
        }
        &&& !(outcome is Applied) ==> after@.len() == before@.len()
    } by {
        let said = FabricEventView::each(before@);
        let then = FabricEventView::each(after@);
        assert(said.len() == before@.len() && then.len() == after@.len());
        assert forall|i: int| 0 <= i < before@.len() implies (#[trigger] after@[i])@
            == before@[i]@ by {
            assert(said[i] == before@[i]@);
            assert(then[i] == after@[i]@);
        }
        if outcome is Applied {
            assert(then.last() == after@.last()@);
            assert(then.last() == (FabricEventView::Updated { registration_id, plugin_id }));
        }
    }
}

/// Each way of reporting does to the fabric what a report does, and answers whether the
/// plugin stands under that number.
pub proof fn every_way_of_reporting_reports(
    plugin_id: PluginId,
    registration_id: FabricRegistrationId,
    report: FabricReport,
    outcome: FabricReportOutcome,
    updated: bool,
    state: FabricModuleState,
    health: FabricHealth,
    capabilities: Vec<RegisteredCapability>,
)
    ensures
        forall|inner: &mut FabricInner| #[trigger]
            call_ensures(
                FabricInner::report,
                (inner, plugin_id, registration_id, report),
                outcome,
            ) ==> {
                &&& outcome == (*inner)@.report_outcome(plugin_id, registration_id)
                &&& (*final(inner))@ == (*inner)@.reported(plugin_id, registration_id, report@)
            },
        forall|inner: &mut FabricInner| #[trigger]
            call_ensures(
                FabricInner::update_state,
                (inner, plugin_id, registration_id, state),
                updated,
            ) ==> {
                &&& updated <==> (*inner)@.report_outcome(plugin_id, registration_id) is Applied
                &&& (*final(inner))@ == (*inner)@.reported(
                    plugin_id,
                    registration_id,
                    FabricReportView::State(state),
                )
            },
        forall|inner: &mut FabricInner| #[trigger]
            call_ensures(
                FabricInner::update_health,
                (inner, plugin_id, registration_id, health),
                updated,
            ) ==> {
                &&& updated <==> (*inner)@.report_outcome(plugin_id, registration_id) is Applied
                &&& (*final(inner))@ == (*inner)@.reported(
                    plugin_id,
                    registration_id,
                    FabricReportView::Health(health),
                )
            },
        forall|inner: &mut FabricInner| #[trigger]
            call_ensures(
                FabricInner::update_capabilities,
                (inner, plugin_id, registration_id, capabilities),
                updated,
            ) ==> {
                &&& updated <==> (*inner)@.report_outcome(plugin_id, registration_id) is Applied
                &&& (*final(inner))@ == (*inner)@.reported(
                    plugin_id,
                    registration_id,
                    FabricReportView::Capabilities(
                        Seq::new(capabilities@.len(), |i: int| capabilities@[i]@),
                    ),
                )
            },
{
    assert(RegisteredCapabilityView::each(capabilities@) =~= Seq::new(
        capabilities@.len(),
        |i: int| capabilities@[i]@,
    ));
}

/// Changing a plugin's entry by a function puts in place what the function made of the entry,
/// notes one update, and begins the next generation; under another registration nothing
/// changes.
pub proof fn updating_by_a_function_puts_its_result_in_place<
    F: FnOnce(&mut FabricModuleRecord),
>(plugin_id: PluginId, registration_id: FabricRegistrationId, update: F, updated: bool, other: u64)
    ensures
        forall|inner: &mut FabricInner| #[trigger]
            call_ensures(
                FabricInner::update_module::<F>,
                (inner, plugin_id, registration_id, update),
                updated,
            ) ==> {
                let before = (*inner)@;
                let after = (*final(inner))@;
                &&& updated <==> before.modules.contains_key(plugin_id.0)
                    && before.modules[plugin_id.0].registration_id == registration_id
                &&& !updated ==> after == before
                &&& updated ==> {
                    &&& exists|entry: &mut FabricModuleRecord| #[trigger]
                        update.ensures((entry,), ()) && (*entry)@ == before.modules[plugin_id.0]
                            && (*final(entry))@ == after.modules[plugin_id.0]
                    &&& after.modules.contains_key(plugin_id.0)
                    &&& other != plugin_id.0 ==> {
                        &&& after.modules.contains_key(other) <==> before.modules.contains_key(
                            other,
                        )
                        &&& after.modules[other] == before.modules[other]
                    }
                    &&& after.events == before.events.push(
                        FabricEventView::Updated { registration_id, plugin_id },
                    )
                    &&& after.generation == before.next_generation
                    &&& after.next_generation == (before.next_generation + 1)
                        % 0x1_0000_0000_0000_0000
                    &&& after.next_registration_id == before.next_registration_id
                }
            },
{
}

// Routing.

/// A request goes nowhere exactly when no module that is ready and not unhealthy offers,
/// anywhere in its list, a capability that answers it.
pub proof fn requests_miss_only_where_nobody_can_serve<P: FabricRoutingPolicy + ?Sized>(
    fabric: FabricView,
    request: FabricRequestView,
    policy: &P,
    outcome: Option<FabricRouteView>,
)
    requires
        fabric.is_route(request, policy, outcome),
    ensures
        outcome is None <==> forall|plugin: u64, i: int|
            #![trigger fabric.modules[plugin].capabilities[i]]
            fabric.modules.contains_key(plugin) && fabric.modules[plugin].state
                == FabricModuleState::Ready && fabric.modules[plugin].health
                != FabricHealth::Unhealthy && 0 <= i < fabric.modules[plugin].capabilities.len()
                ==> !fabric.modules[plugin].capabilities[i].capability.matches(request),
{
    if outcome is None {
        assert forall|plugin: u64, i: int|
            #![trigger fabric.modules[plugin].capabilities[i]]
            fabric.modules.contains_key(plugin) && fabric.modules[plugin].state
                == FabricModuleState::Ready && fabric.modules[plugin].health
                != FabricHealth::Unhealthy && 0 <= i
                < fabric.modules[plugin].capabilities.len() implies !(
        fabric.modules[plugin].capabilities[i].capability.matches(request)) by {
            let module = fabric.modules[plugin];
            if module.capabilities[i].capability.matches(request) {
                crate::laws::ordering::modules_answer_with_the_closest_then_most_urgent(
                    module,
                    request,
                );
                let candidate = module.candidate(PluginId(plugin), request).unwrap();
                assert(fabric.has_candidate(candidate, request));
            }
        }
    }
    if let Some(route) = outcome {
        let candidate = route.candidates[0];
        let plugin = candidate.plugin_id.0;
        assert(route.candidates.contains(candidate));
        crate::laws::ordering::modules_answer_with_the_closest_then_most_urgent(
            fabric.modules[plugin],
            request,
        );
        let i = choose|i: int|
            0 <= i < fabric.modules[plugin].capabilities.len()
                && #[trigger] fabric.modules[plugin].capabilities[i] == candidate.capability;
        assert(fabric.modules[plugin].capabilities[i].capability.matches(request));
    }
}

/// A route is for the request that was asked, goes to the first of its candidates, and lists
/// as candidates the modules that are ready, not unhealthy and able, each once and with its
/// own registration, identity, name, state and health.
pub proof fn routes_list_every_able_module_once<P: FabricRoutingPolicy + ?Sized>(
    fabric: FabricView,
    request: FabricRequestView,
    policy: &P,
    route: FabricRouteView,
)
    requires
        fabric.is_route(request, policy, Some(route)),
    ensures
        route.request == request,
        route.candidates.len() > 0,
        route.selected == route.candidates[0],
        forall|i: int|
            0 <= i < route.candidates.len() ==> {
                let candidate = #[trigger] route.candidates[i];
                let module = fabric.modules[candidate.plugin_id.0];
                &&& fabric.modules.contains_key(candidate.plugin_id.0)
                &&& module.state == FabricModuleState::Ready
                &&& module.health != FabricHealth::Unhealthy
                &&& candidate.registration_id == module.registration_id
                &&& candidate.volt_id.author == module.volt_id.author
                &&& candidate.volt_id.name == module.volt_id.name
                &&& candidate.name == module.name
                &&& candidate.state == module.state
                &&& candidate.health == module.health
            },
        forall|plugin: u64, k: int|
            #![trigger fabric.modules[plugin].capabilities[k]]
            fabric.modules.contains_key(plugin) && fabric.modules[plugin].state
                == FabricModuleState::Ready && fabric.modules[plugin].health
                != FabricHealth::Unhealthy && 0 <= k < fabric.modules[plugin].capabilities.len()
                && fabric.modules[plugin].capabilities[k].capability.matches(request)
                ==> exists|i: int|
                0 <= i < route.candidates.len() && (
                #[trigger] route.candidates[i]).plugin_id.0 == plugin,
        forall|i: int, j: int|
            0 <= i < j < route.candidates.len() ==> (#[trigger] route.candidates[i]).plugin_id
                != (#[trigger] route.candidates[j]).plugin_id,
{
    assert forall|i: int| 0 <= i < route.candidates.len() implies fabric.has_candidate(
        #[trigger] route.candidates[i],
        request,
    ) by {
        assert(route.candidates.contains(route.candidates[i]));
    }
    assert forall|plugin: u64, k: int|
        #![trigger fabric.modules[plugin].capabilities[k]]
        fabric.modules.contains_key(plugin) && fabric.modules[plugin].state
            == FabricModuleState::Ready && fabric.modules[plugin].health
            != FabricHealth::Unhealthy && 0 <= k < fabric.modules[plugin].capabilities.len()
            && fabric.modules[plugin].capabilities[k].capability.matches(
            request,
        ) implies exists|i: int|
        0 <= i < route.candidates.len() && (#[trigger] route.candidates[i]).plugin_id.0
            == plugin by {
        let module = fabric.modules[plugin];
        crate::laws::ordering::modules_answer_with_the_closest_then_most_urgent(module, request);
        let candidate = module.candidate(PluginId(plugin), request).unwrap();
        assert(fabric.has_candidate(candidate, request));
        assert(route.candidates.contains(candidate));
    }
    assert forall|i: int, j: int| 0 <= i < j < route.candidates.len() implies (
    #[trigger] route.candidates[i]).plugin_id != (#[trigger] route.candidates[j]).plugin_id by {
        if route.candidates[i].plugin_id == route.candidates[j].plugin_id {
            assert(route.candidates[i] == route.candidates[j]);
            assert(route.candidates[i].ahead_of(route.candidates[j], request, policy));
            crate::laws::ordering::candidates_go_by_score_then_number(
                route.candidates[i],
                policy.score(request, route.candidates[i]),
                route.candidates[i],
                policy.score(request, route.candidates[i]),
            );
        }
    }
}

/// A candidate is listed with the capability of its module that fits the request most closely
/// and, of those that fit equally, has the highest priority.
pub proof fn candidates_offer_the_closest_then_most_urgent<P: FabricRoutingPolicy + ?Sized>(
    fabric: FabricView,
    request: FabricRequestView,
    policy: &P,
    route: FabricRouteView,
    i: int,
)
    requires
        fabric.is_route(request, policy, Some(route)),
        0 <= i < route.candidates.len(),
    ensures
        ({
            let offered = route.candidates[i].capability;
            let all = fabric.modules[route.candidates[i].plugin_id.0].capabilities;
            &&& offered.capability.matches(request)
            &&& exists|k: int| 0 <= k < all.len() && #[trigger] all[k] == offered
            &&& forall|k: int|
                0 <= k < all.len() && (#[trigger] all[k]).capability.matches(request) ==> {
                    let fit = offered.capability.specificity(request);
                    ||| all[k].capability.specificity(request) < fit
                    ||| all[k].capability.specificity(request) == fit && all[k].capability.priority
                        < offered.capability.priority
                    ||| all[k].capability == offered.capability
                }
        }),
{
    assert(route.candidates.contains(route.candidates[i]));
    crate::laws::ordering::modules_answer_with_the_closest_then_most_urgent(
        fabric.modules[route.candidates[i].plugin_id.0],
        request,
    );
}

/// Of two candidates on a route the earlier has the higher score: it is healthier by it, or as
/// healthy and fits more closely, or is alike in both and has the higher priority; or the
/// scores are the same and its plugin number is lower.
pub proof fn routes_are_ordered_by_score_then_number<P: FabricRoutingPolicy + ?Sized>(
    fabric: FabricView,
    request: FabricRequestView,
    policy: &P,
    route: FabricRouteView,
    i: int,
    j: int,
)
    requires
        fabric.is_route(request, policy, Some(route)),
        0 <= i < j < route.candidates.len(),
    ensures
        ({
            let first = policy.score(request, route.candidates[i]);
            let then = policy.score(request, route.candidates[j]);
            ||| first.health > then.health
            ||| first.health == then.health && first.specificity > then.specificity
            ||| first.health == then.health && first.specificity == then.specificity
                && first.priority > then.priority
            ||| first.health == then.health && first.specificity == then.specificity
                && first.priority == then.priority && route.candidates[i].plugin_id.0
                < route.candidates[j].plugin_id.0
        }),
{
    routes_list_every_able_module_once(fabric, request, policy, route);
    let first = route.candidates[i];
    let then = route.candidates[j];
    assert(first.ahead_of(then, request, policy));
    crate::laws::ordering::candidates_go_by_score_then_number(
        first,
        policy.score(request, first),
        then,
        policy.score(request, then),
    );
}

/// Routing leaves the modules and the counters, and adds one event: where the request went, or
/// that it went nowhere.
pub proof fn routing_notes_the_outcome_alone(
    fabric: FabricView,
    request: FabricRequestView,
    outcome: Option<FabricRouteView>,
)
    ensures
        fabric.routed(request, outcome).modules == fabric.modules,
        fabric.routed(request, outcome).generation == fabric.generation,
        fabric.routed(request, outcome).next_generation == fabric.next_generation,
        fabric.routed(request, outcome).next_registration_id == fabric.next_registration_id,
        match outcome {
            Some(route) => fabric.routed(request, outcome).events == fabric.events.push(
                FabricEventView::RouteResolved { request, selected: route.selected },
            ),
            None => fabric.routed(request, outcome).events == fabric.events.push(
                FabricEventView::RouteMiss { request },
            ),
        },
{
}

/// Routing a request finds a route of the fabric, by the policy that was given, and notes it.
pub proof fn routing_finds_a_route_and_notes_it<P: FabricRoutingPolicy + ?Sized>(
    request: FabricRequest,
    policy: &P,
    outcome: Option<FabricRoute>,
)
    ensures
        forall|inner: &mut FabricInner| #[trigger]
            call_ensures(FabricInner::route::<P>, (inner, request, policy), outcome) ==> {
                &&& (*inner)@.is_route(
                    request@,
                    policy,
                    if outcome is Some {
                        Some(outcome.unwrap()@)
                    } else {
                        None
                    },
                )
                &&& (*final(inner))@ == (*inner)@.routed(
                    request@,
                    if outcome is Some {
                        Some(outcome.unwrap()@)
                    } else {
                        None
                    },
                )
            },
{
}

/// A request that is routed goes nowhere exactly when a snapshot taken before shows no module
/// that is ready and not unhealthy with a capability that says it answers.
pub proof fn routing_misses_only_what_a_snapshot_lacks<P: FabricRoutingPolicy + ?Sized>(
    request: FabricRequest,
    policy: &P,
    outcome: Option<FabricRoute>,
    snapshot: FabricSnapshot,
)
    ensures
        forall|inner: &mut FabricInner| #[trigger]
            call_ensures(FabricInner::route::<P>, (inner, request, policy), outcome)
                && call_ensures(FabricInner::snapshot, (&*inner,), snapshot) ==> (outcome is None
                <==> forall|i: int, k: int|
                #![trigger snapshot.modules@[i].capabilities@[k]]
                0 <= i < snapshot.modules@.len() && snapshot.modules@[i].state
                    == FabricModuleState::Ready && snapshot.modules@[i].health
                    != FabricHealth::Unhealthy && 0 <= k
                    < snapshot.modules@[i].capabilities@.len()
                    ==> !snapshot.modules@[i].capabilities@[k].capability@.matches(request@)),
{
    assert forall|inner: &mut FabricInner| #[trigger]
        call_ensures(FabricInner::route::<P>, (inner, request, policy), outcome) && call_ensures(
            FabricInner::snapshot,
            (&*inner,),
            snapshot,
        ) implies (outcome is None <==> forall|i: int, k: int|
        #![trigger snapshot.modules@[i].capabilities@[k]]
        0 <= i < snapshot.modules@.len() && snapshot.modules@[i].state == FabricModuleState::Ready
            && snapshot.modules@[i].health != FabricHealth::Unhealthy && 0 <= k
            < snapshot.modules@[i].capabilities@.len()
            ==> !snapshot.modules@[i].capabilities@[k].capability@.matches(request@)) by {
        let fabric = (*inner)@;
        snapshots_show_every_module_as_it_stands(fabric, snapshot@);
        requests_miss_only_where_nobody_can_serve(
            fabric,
            request@,
            policy,
            FabricRouteView::of(outcome),
        );
        assert forall|i: int, k: int|
            #![trigger snapshot.modules@[i].capabilities@[k]]
            0 <= i < snapshot.modules@.len() && 0 <= k
                < snapshot.modules@[i].capabilities@.len() implies {
            let plugin = snapshot.modules@[i].plugin_id.0;
            &&& fabric.modules.contains_key(plugin)
            &&& fabric.modules[plugin].state == snapshot.modules@[i].state
            &&& fabric.modules[plugin].health == snapshot.modules@[i].health
            &&& k < fabric.modules[plugin].capabilities.len()
            &&& fabric.modules[plugin].capabilities[k]
                == snapshot.modules@[i].capabilities@[k]@
        } by {
            let shown = snapshot.modules@[i];
            assert(snapshot@.modules[i] == shown@);
            assert(shown@.capabilities[k] == shown.capabilities@[k]@);
        }
        if outcome is Some {
            let (plugin, k) = choose|plugin: u64, k: int|
                #![trigger fabric.modules[plugin].capabilities[k]]
                fabric.modules.contains_key(plugin) && fabric.modules[plugin].state
                    == FabricModuleState::Ready && fabric.modules[plugin].health
                    != FabricHealth::Unhealthy && 0 <= k
                    < fabric.modules[plugin].capabilities.len()
                    && fabric.modules[plugin].capabilities[k].capability.matches(request@);
            let i = choose|i: int|
                0 <= i < snapshot@.modules.len() && (
                #[trigger] snapshot@.modules[i]).plugin_id.0 == plugin;
            let shown = snapshot.modules@[i];
            assert(snapshot@.modules[i] == shown@);
            assert(shown@.capabilities[k] == shown.capabilities@[k]@);
            assert(snapshot.modules@[i].capabilities@[k].capability@.matches(request@));
        }
    }
}

// Looking and draining.

/// A snapshot is of the fabric's generation. Every module that it shows stands in the fabric
/// under its plugin number with that registration, identity, name, state and health and those
/// capabilities; every module of the fabric is shown; and they are shown by rising number.
pub proof fn snapshots_show_every_module_as_it_stands(
    fabric: FabricView,
    snapshot: FabricSnapshotView,
)
    requires
        fabric.is_snapshot(snapshot),
    ensures
        snapshot.generation == fabric.generation,
        forall|i: int|
            0 <= i < snapshot.modules.len() ==> {
                let shown = #[trigger] snapshot.modules[i];
                let module = fabric.modules[shown.plugin_id.0];
                &&& fabric.modules.contains_key(shown.plugin_id.0)
                &&& shown.registration_id == module.registration_id
                &&& shown.volt_id.author == module.volt_id.author
                &&& shown.volt_id.name == module.volt_id.name
                &&& shown.name == module.name
                &&& shown.capabilities == module.capabilities
                &&& shown.state == module.state
                &&& shown.health == module.health
            },
        forall|plugin: u64| #[trigger]
            fabric.modules.contains_key(plugin) ==> exists|i: int|
                0 <= i < snapshot.modules.len() && (
                #[trigger] snapshot.modules[i]).plugin_id.0 == plugin,
        forall|i: int, j: int|
            0 <= i < j < snapshot.modules.len() ==> (#[trigger] snapshot.modules[i]).plugin_id.0
                < (#[trigger] snapshot.modules[j]).plugin_id.0,
{
    assert forall|i: int| 0 <= i < snapshot.modules.len() implies fabric.has_module(
        #[trigger] snapshot.modules[i],
    ) by {
        assert(snapshot.modules.contains(snapshot.modules[i]));
    }
    assert forall|plugin: u64| #[trigger] fabric.modules.contains_key(plugin) implies exists|
        i: int,
    |
        0 <= i < snapshot.modules.len() && (#[trigger] snapshot.modules[i]).plugin_id.0
            == plugin by {
        let shown = fabric.modules[plugin].snapshot(PluginId(plugin));
        assert(fabric.has_module(shown));
        assert(snapshot.modules.contains(shown));
    }
}

/// What a snapshot and a look at the events give back is what the fabric holds.
pub proof fn looking_gives_what_is_held(
    inner: &FabricInner,
    snapshot: FabricSnapshot,
    events: Vec<FabricEvent>,
)
    requires
        call_ensures(FabricInner::snapshot, (inner,), snapshot),
        call_ensures(FabricInner::events, (inner,), events),
    ensures
        snapshot.generation == inner@.generation,
        inner@.is_snapshot(snapshot@),
        events@.len() == inner@.events.len(),
        forall|i: int| 0 <= i < events@.len() ==> (#[trigger] events@[i])@ == inner@.events[i],
{
    let said = FabricEventView::each(events@);
    assert(said.len() == events@.len());
    assert forall|i: int| 0 <= i < events@.len() implies (#[trigger] events@[i])@
        == inner@.events[i] by {
        assert(said[i] == events@[i]@);
    }
}

/// Draining forgets every event and keeps the modules and the counters.
pub proof fn draining_keeps_all_but_the_events(fabric: FabricView)
    ensures
        fabric.drained().events.len() == 0,
        fabric.drained().modules == fabric.modules,
        fabric.drained().generation == fabric.generation,
        fabric.drained().next_generation == fabric.next_generation,
        fabric.drained().next_registration_id == fabric.next_registration_id,
{
}

/// Draining hands out what a look just before it shows, and a look just after it shows
/// nothing.
pub proof fn draining_hands_out_what_was_there(
    before: Vec<FabricEvent>,
    drained: Vec<FabricEvent>,
    after: Vec<FabricEvent>,
)
    ensures
        forall|inner: &mut FabricInner| #[trigger]
            call_ensures(FabricInner::drain_events, (inner,), drained) ==> {
                &&& (*final(inner))@ == (*inner)@.drained()
                &&& call_ensures(FabricInner::events, (&*inner,), before) ==> {
                    &&& drained@.len() == before@.len()
                    &&& forall|i: int|
                        0 <= i < before@.len() ==> (#[trigger] drained@[i])@ == before@[i]@
                }
                &&& call_ensures(FabricInner::events, (&*final(inner),), after) ==> after@.len()
                    == 0
            },
{
    assert forall|inner: &mut FabricInner| #[trigger]
        call_ensures(FabricInner::drain_events, (inner,), drained) && call_ensures(
            FabricInner::events,
            (&*inner,),
            before,
        ) implies drained@.len() == before@.len() && forall|i: int|
        0 <= i < before@.len() ==> (#[trigger] drained@[i])@ == before@[i]@ by {
        let said = FabricEventView::each(before@);
        let handed = FabricEventView::each(drained@);
        assert(said.len() == before@.len() && handed.len() == drained@.len());
        assert forall|i: int| 0 <= i < before@.len() implies (#[trigger] drained@[i])@
            == before@[i]@ by {
            assert(said[i] == before@[i]@ && handed[i] == drained@[i]@);
        }
    }
    assert forall|inner: &mut FabricInner| #[trigger]
        call_ensures(FabricInner::drain_events, (inner,), drained) && call_ensures(
            FabricInner::events,
            (&*final(inner),),
            after,
        ) implies after@.len() == 0 by {
        assert(FabricEventView::each(after@).len() == after@.len());
    }
}

// Any operation.

/// One operation changes the entry of one plugin at most. It leaves the events, adds one, or
/// drains them; and where it changes an entry it adds an event and begins the next generation.
pub proof fn operations_are_small(before: FabricView, after: FabricView)
    requires
        FabricStep::leads(before, after),
    ensures
        after.events == before.events || after.events.len() == 0 || after.events.len()
            == before.events.len() + 1 && after.events.drop_last() == before.events,
        after.modules == before.modules || exists|plugin: u64| #[trigger]
            after.modules.remove(plugin) == before.modules.remove(plugin),
        after.modules != before.modules ==> {
            &&& after.events.len() == before.events.len() + 1
            &&& after.generation == before.next_generation
        },
        after.generation == before.generation || after.generation == before.next_generation,
{
    let step = choose|step: FabricStep| #[trigger]
        step.of(before) == after && step.can_happen(before);
    match step {
        FabricStep::Register { registration } => {
            let plugin = registration.plugin_id.0;
            assert(after.modules.remove(plugin) =~= before.modules.remove(plugin));
            assert(after.events.drop_last() =~= before.events);
        },
        FabricStep::Unregister { plugin_id, registration_id } => {
            assert(after.modules.remove(plugin_id.0) =~= before.modules.remove(plugin_id.0));
            if before.is_current(plugin_id, registration_id) {
                assert(after.events.drop_last() =~= before.events);
            }
        },
        FabricStep::Report { plugin_id, registration_id, report } => {
            assert(after.modules.remove(plugin_id.0) =~= before.modules.remove(plugin_id.0));
            if before.is_current(plugin_id, registration_id) {
                assert(after.events.drop_last() =~= before.events);
            }
        },
        FabricStep::Route { request, outcome } => {
            assert(after.events.drop_last() =~= before.events);
        },
        FabricStep::Drain => {},
    }
}

} // verus!

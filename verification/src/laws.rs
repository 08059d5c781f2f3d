//! What holds of the fabric as a whole, over the states that its operations speak of.

pub mod operations;
pub mod ordering;
pub mod shared;
pub mod values;

use crate::fabric_types::{
    FabricCandidateView, FabricCapabilityView, FabricEventView, FabricModuleRegistrationView,
    FabricModuleSnapshotView, FabricRegistrationId, FabricReportView, FabricRequestView,
    FabricRouteView, FabricSnapshotView, PluginId,
};
use crate::model::{FabricModuleView, FabricStep, FabricView};
use crate::routing::{DefaultFabricRoutingPolicy, FabricRoutingPolicy};
use vstd::prelude::*;

verus! {

// Matching.

/// A capability answers a request exactly when it is the same operation of the same namespace
/// and its language fits at all.
pub proof fn matching_is_fitting(capability: FabricCapabilityView, request: FabricRequestView)
    ensures
        capability.matches(request) <==> {
            &&& capability.namespace == request.namespace
            &&& capability.operation == request.operation
            &&& capability.specificity(request) > 0
        },
{
}

/// For a request in a language other than the wildcard, a capability for that language fits
/// more closely than the wildcard, the wildcard more closely than a generic one, and a generic
/// one more closely than one for another language.
pub proof fn exact_over_wildcard_over_generic(
    request: FabricRequestView,
    exact: FabricCapabilityView,
    wildcard: FabricCapabilityView,
    generic: FabricCapabilityView,
    other: FabricCapabilityView,
)
    requires
        request.language is Some,
        request.language != Some(FabricCapabilityView::wildcard()),
        exact.language == request.language,
        wildcard.language == Some(FabricCapabilityView::wildcard()),
        generic.language is None,
        other.language is Some,
        other.language != request.language,
        other.language != wildcard.language,
    ensures
        exact.specificity(request) > wildcard.specificity(request) > generic.specificity(request)
            > other.specificity(request),
{
}

/// Among the first `n` of a module's capabilities the best answer is at `i`.
spec fn is_best_within(
    module: FabricModuleView,
    request: FabricRequestView,
    n: int,
    i: int,
) -> bool {
    &&& i < n
    &&& module.answers_at(request, i)
    &&& forall|j: int| #[trigger]
        module.answers_at(request, j) && j < n
            ==> !module.capabilities[i].capability.weaker_than(
            module.capabilities[j].capability,
            request,
        )
    &&& forall|j: int| #[trigger]
        module.answers_at(request, j) && i < j < n
            ==> module.capabilities[j].capability.weaker_than(
            module.capabilities[i].capability,
            request,
        )
}

proof fn lemma_best_within_exists(
    module: FabricModuleView,
    request: FabricRequestView,
    n: int,
    k: int,
)
    requires
        0 <= k < n <= module.capabilities.len(),
        module.answers_at(request, k),
    ensures
        exists|i: int| is_best_within(module, request, n, i),
    decreases n,
{
    let last = n - 1;
    FabricCapabilityView::order_is_total(
        module.capabilities[last].capability,
        module.capabilities[last].capability,
        request,
    );
    if exists|j: int| 0 <= j < last && module.answers_at(request, j) {
        let j = choose|j: int| 0 <= j < last && module.answers_at(request, j);
        lemma_best_within_exists(module, request, last, j);
        let best = choose|i: int| is_best_within(module, request, last, i);
        if module.answers_at(request, last) {
            let own = module.capabilities[last].capability;
            let strongest = module.capabilities[best].capability;
            FabricCapabilityView::order_is_total(own, strongest, request);
            if own.weaker_than(strongest, request) {
                assert(is_best_within(module, request, n, best));
            } else {
                assert forall|j: int| #[trigger]
                    module.answers_at(request, j) && j < n implies !own.weaker_than(
                    module.capabilities[j].capability,
                    request,
                ) by {
                    if j < last {
                        FabricCapabilityView::strength_is_transitive(
                            own,
                            strongest,
                            module.capabilities[j].capability,
                            request,
                        );
                    }
                }
                assert(is_best_within(module, request, n, last));
            }
        } else {
            assert(is_best_within(module, request, n, best));
        }
    } else {
        assert(k == last);
        assert(is_best_within(module, request, n, last));
    }
}

/// A module has a best answer to a request as soon as it has any, and the best answer is one
/// of its capabilities, answers the request, and is no weaker than any other that does.
pub proof fn best_capability_is_best(module: FabricModuleView, request: FabricRequestView)
    ensures
        module.best_capability(request) is Some <==> exists|i: int| module.answers_at(request, i),
        module.best_capability(request) matches Some(best) ==> {
            &&& module.capabilities.contains(best)
            &&& best.capability.matches(request)
            &&& forall|i: int| #[trigger]
                module.answers_at(request, i) ==> !best.capability.weaker_than(
                    module.capabilities[i].capability,
                    request,
                )
        },
{
    if exists|i: int| module.answers_at(request, i) {
        let k = choose|i: int| module.answers_at(request, i);
        lemma_best_within_exists(module, request, module.capabilities.len() as int, k);
        let best = choose|i: int|
            is_best_within(module, request, module.capabilities.len() as int, i);
        assert(module.is_best_at(request, best));
    }
    if exists|i: int| module.is_best_at(request, i) {
        let best = choose|i: int| module.is_best_at(request, i);
        assert(module.is_best_at(request, best));
        assert(module.answers_at(request, best));
    }
}

// Routing.

/// Every candidate on a route is a module of the fabric that is ready and not unhealthy, and
/// the capability it is listed with is its own and answers the request.
pub proof fn candidates_can_serve<P: FabricRoutingPolicy + ?Sized>(
    fabric: FabricView,
    request: FabricRequestView,
    policy: &P,
    route: FabricRouteView,
    i: int,
)
    requires
        fabric.is_route(request, policy, Some(route)),
        0 <= i < route.candidates.len(),
    ensures
        fabric.is_current(
            route.candidates[i].plugin_id,
            route.candidates[i].registration_id,
        ),
        route.candidates[i].state is Ready,
        !(route.candidates[i].health is Unhealthy),
        route.candidates[i].capability.capability.matches(request),
        fabric.modules[route.candidates[i].plugin_id.0].capabilities.contains(
            route.candidates[i].capability,
        ),
{
    let candidate = route.candidates[i];
    assert(route.candidates.contains(candidate));
    best_capability_is_best(fabric.modules[candidate.plugin_id.0], request);
}

/// A request goes nowhere exactly when no module that is ready and not unhealthy has a
/// capability that answers it.
pub proof fn misses_only_without_candidates<P: FabricRoutingPolicy + ?Sized>(
    fabric: FabricView,
    request: FabricRequestView,
    policy: &P,
    outcome: Option<FabricRouteView>,
)
    requires
        fabric.is_route(request, policy, outcome),
    ensures
        outcome is None <==> forall|plugin: u64, i: int|
            #![trigger fabric.modules[plugin].answers_at(request, i)]
            !(fabric.modules.contains_key(plugin) && fabric.modules[plugin].is_routable()
                && fabric.modules[plugin].answers_at(request, i)),
{
    match outcome {
        None => {
            assert forall|plugin: u64, i: int|
                #![trigger fabric.modules[plugin].answers_at(request, i)]
                !(fabric.modules.contains_key(plugin) && fabric.modules[plugin].is_routable()
                    && fabric.modules[plugin].answers_at(request, i)) by {
                if fabric.modules.contains_key(plugin) && fabric.modules[plugin].is_routable()
                    && fabric.modules[plugin].answers_at(request, i) {
                    best_capability_is_best(fabric.modules[plugin], request);
                    let candidate = fabric.modules[plugin].candidate(
                        PluginId(plugin),
                        request,
                    ).unwrap();
                    assert(fabric.has_candidate(candidate, request));
                }
            }
        },
        Some(route) => {
            let candidate = route.candidates[0];
            assert(route.candidates.contains(candidate));
            let module = fabric.modules[candidate.plugin_id.0];
            best_capability_is_best(module, request);
            let i = choose|i: int| module.answers_at(request, i);
            assert(fabric.modules[candidate.plugin_id.0].answers_at(request, i));
        },
    }
}

/// The selected candidate goes ahead of every other module that could serve the request.
pub proof fn selection_is_first<P: FabricRoutingPolicy + ?Sized>(
    fabric: FabricView,
    request: FabricRequestView,
    policy: &P,
    route: FabricRouteView,
    other: FabricCandidateView,
)
    requires
        fabric.is_route(request, policy, Some(route)),
        fabric.has_candidate(other, request),
        other != route.selected,
    ensures
        fabric.has_candidate(route.selected, request),
        route.selected.ahead_of(other, request, policy),
{
    assert(route.candidates.contains(route.candidates[0]));
    assert(route.candidates.contains(other));
    let i = choose|i: int| 0 <= i < route.candidates.len() && route.candidates[i] == other;
    assert(route.candidates[0].ahead_of(route.candidates[i], request, policy));
}

/// Under the default policy no candidate is healthier than the selected one; none as healthy
/// fits the request's language more closely; none as healthy and close has a higher priority;
/// and of those alike in all three the selected one has the lowest plugin number.
pub proof fn default_prefers_health_then_fit_then_priority(
    fabric: FabricView,
    request: FabricRequestView,
    route: FabricRouteView,
    other: FabricCandidateView,
)
    requires
        fabric.is_route(request, &DefaultFabricRoutingPolicy, Some(route)),
        fabric.has_candidate(other, request),
    ensures
        ({
            let best = route.selected;
            let best_fit = best.capability.capability.specificity(request);
            let other_fit = other.capability.capability.specificity(request);
            let best_priority = best.capability.capability.priority;
            let other_priority = other.capability.capability.priority;
            &&& other.health.weight() <= best.health.weight()
            &&& other.health.weight() == best.health.weight() ==> other_fit <= best_fit
            &&& other.health.weight() == best.health.weight() && other_fit == best_fit
                ==> other_priority <= best_priority
            &&& other.health.weight() == best.health.weight() && other_fit == best_fit
                && other_priority == best_priority ==> best.plugin_id.0 <= other.plugin_id.0
        }),
{
    if other != route.selected {
        selection_is_first(fabric, request, &DefaultFabricRoutingPolicy, route, other);
    }
}

/// Two rankings of the candidates for a request are the same: the order in which the modules
/// are kept makes no difference.
pub proof fn ranking_is_unique<P: FabricRoutingPolicy + ?Sized>(
    fabric: FabricView,
    request: FabricRequestView,
    policy: &P,
    left: Seq<FabricCandidateView>,
    right: Seq<FabricCandidateView>,
)
    requires
        fabric.is_ranking(request, policy, left),
        fabric.is_ranking(request, policy, right),
    ensures
        left == right,
{
    assert forall|candidate: FabricCandidateView| #[trigger]
        left.contains(candidate) <==> right.contains(candidate) by {
        assert(left.contains(candidate) <==> fabric.has_candidate(candidate, request));
        assert(right.contains(candidate) <==> fabric.has_candidate(candidate, request));
    }
    lemma_ranked_unique(request, policy, left, right);
}

proof fn lemma_ranked_unique<P: FabricRoutingPolicy + ?Sized>(
    request: FabricRequestView,
    policy: &P,
    left: Seq<FabricCandidateView>,
    right: Seq<FabricCandidateView>,
)
    requires
        forall|i: int, j: int|
            0 <= i < j < left.len() ==> (#[trigger] left[i]).ahead_of(
                #[trigger] left[j],
                request,
                policy,
            ),
        forall|i: int, j: int|
            0 <= i < j < right.len() ==> (#[trigger] right[i]).ahead_of(
                #[trigger] right[j],
                request,
                policy,
            ),
        forall|candidate: FabricCandidateView| #[trigger]
            left.contains(candidate) <==> right.contains(candidate),
    ensures
        left == right,
    decreases left.len(),
{
    if left.len() == 0 {
        if right.len() > 0 {
            assert(right.contains(right[0]));
            assert(left.contains(right[0]));
        }
        assert(left =~= right);
    } else {
        assert(left.contains(left[0]));
        let i = choose|i: int| 0 <= i < right.len() && right[i] == left[0];
        assert(right.contains(right[0]) && left.contains(right[0]));
        let j = choose|j: int| 0 <= j < left.len() && left[j] == right[0];
        FabricCandidateView::order_is_total(left[0], right[0], request, policy);
        assert(left[0] == right[0]);
        let rest = left.drop_first();
        let others = right.drop_first();
        assert forall|candidate: FabricCandidateView| #[trigger]
            rest.contains(candidate) implies others.contains(candidate) by {
            lemma_tail_contains(request, policy, left, right, candidate);
        }
        assert forall|candidate: FabricCandidateView| #[trigger]
            others.contains(candidate) implies rest.contains(candidate) by {
            assert forall|other: FabricCandidateView| #[trigger]
                right.contains(other) implies left.contains(other) by {
                assert(left.contains(other) <==> right.contains(other));
            }
            lemma_tail_contains(request, policy, right, left, candidate);
        }
        lemma_ranked_unique(request, policy, rest, others);
        assert(left =~= seq![left[0]] + rest);
        assert(right =~= seq![right[0]] + others);
    }
}

proof fn lemma_tail_contains<P: FabricRoutingPolicy + ?Sized>(
    request: FabricRequestView,
    policy: &P,
    left: Seq<FabricCandidateView>,
    right: Seq<FabricCandidateView>,
    candidate: FabricCandidateView,
)
    requires
        left.len() > 0,
        right.len() > 0,
        left[0] == right[0],
        forall|i: int, j: int|
            0 <= i < j < left.len() ==> (#[trigger] left[i]).ahead_of(
                #[trigger] left[j],
                request,
                policy,
            ),
        forall|other: FabricCandidateView| #[trigger]
            left.contains(other) ==> right.contains(other),
        left.drop_first().contains(candidate),
    ensures
        right.drop_first().contains(candidate),
{
    let i = choose|i: int|
        0 <= i < left.drop_first().len() && left.drop_first()[i] == candidate;
    assert(left[i + 1] == candidate);
    assert(left[0].ahead_of(left[i + 1], request, policy));
    FabricCandidateView::order_is_total(left[0], left[0], request, policy);
    assert(left.contains(candidate));
    let j = choose|j: int| 0 <= j < right.len() && right[j] == candidate;
    assert(j != 0);
    assert(right.drop_first()[j - 1] == candidate);
}

/// A request has one outcome in a fabric.
pub proof fn outcome_is_unique<P: FabricRoutingPolicy + ?Sized>(
    fabric: FabricView,
    request: FabricRequestView,
    policy: &P,
    left: Option<FabricRouteView>,
    right: Option<FabricRouteView>,
)
    requires
        fabric.is_route(request, policy, left),
        fabric.is_route(request, policy, right),
    ensures
        left == right,
{
    match (left, right) {
        (Some(l), Some(r)) => ranking_is_unique(
            fabric,
            request,
            policy,
            l.candidates,
            r.candidates,
        ),
        (Some(l), None) => assert(l.candidates.contains(l.candidates[0])),
        (None, Some(r)) => assert(r.candidates.contains(r.candidates[0])),
        (None, None) => {},
    }
}

/// Routing notes one event and changes nothing else.
pub proof fn routing_leaves_the_modules(
    fabric: FabricView,
    request: FabricRequestView,
    outcome: Option<FabricRouteView>,
)
    ensures
        fabric.routed(request, outcome) == (FabricView {
            events: fabric.routed(request, outcome).events,
            ..fabric
        }),
        fabric.routed(request, outcome).events.len() == fabric.events.len() + 1,
        fabric.routed(request, outcome).events.drop_last() == fabric.events,
{
    assert(fabric.routed(request, outcome).events.drop_last() =~= fabric.events);
}

// Registration.

/// A fabric starts sound.
pub proof fn start_is_sound()
    ensures
        FabricView::empty().is_sound(),
{
}

/// Registering keeps a fabric sound.
pub proof fn registering_keeps_soundness(
    fabric: FabricView,
    registration: FabricModuleRegistrationView,
)
    requires
        fabric.is_sound(),
        fabric.next_registration_id < u64::MAX,
    ensures
        fabric.registered(registration).is_sound(),
{
    let after = fabric.registered(registration);
    assert forall|plugin: u64| #[trigger] after.modules.contains_key(plugin) implies (
    after.modules[plugin].registration_id.0 < after.next_registration_id) by {
        if plugin != registration.plugin_id.0 {
            assert(fabric.modules.contains_key(plugin));
        }
    }
    assert forall|p: u64, q: u64|
        #![trigger after.modules.contains_key(p), after.modules.contains_key(q)]
        after.modules.contains_key(p) && after.modules.contains_key(q) && p
            != q implies after.modules[p].registration_id != after.modules[q].registration_id by {
        if p != registration.plugin_id.0 {
            assert(fabric.modules.contains_key(p));
        }
        if q != registration.plugin_id.0 {
            assert(fabric.modules.contains_key(q));
        }
    }
}

/// Unregistering keeps a fabric sound.
pub proof fn unregistering_keeps_soundness(
    fabric: FabricView,
    plugin_id: PluginId,
    registration_id: FabricRegistrationId,
)
    requires
        fabric.is_sound(),
    ensures
        fabric.unregistered(plugin_id, registration_id).is_sound(),
{
    let after = fabric.unregistered(plugin_id, registration_id);
    assert forall|plugin: u64| #[trigger]
        after.modules.contains_key(plugin) implies fabric.modules.contains_key(plugin)
        && after.modules[plugin] == fabric.modules[plugin] by {}
}

/// A report of a module keeps a fabric sound, whatever is reported.
pub proof fn reporting_keeps_soundness(
    fabric: FabricView,
    plugin_id: PluginId,
    registration_id: FabricRegistrationId,
    report: FabricReportView,
)
    requires
        fabric.is_sound(),
    ensures
        fabric.reported(plugin_id, registration_id, report).is_sound(),
{
    let module = fabric.modules[plugin_id.0];
    let after = match report {
        FabricReportView::State(state) => FabricModuleView { state, ..module },
        FabricReportView::Health(health) => FabricModuleView { health, ..module },
        FabricReportView::Capabilities(capabilities) => FabricModuleView { capabilities, ..module },
    };
    updating_keeps_soundness(fabric, plugin_id, registration_id, after);
}

/// A change of a module's entry that leaves its registration number keeps a fabric sound.
pub proof fn updating_keeps_soundness(
    fabric: FabricView,
    plugin_id: PluginId,
    registration_id: FabricRegistrationId,
    module: FabricModuleView,
)
    requires
        fabric.is_sound(),
        module.registration_id == fabric.modules[plugin_id.0].registration_id,
    ensures
        fabric.updated(plugin_id, registration_id, module).is_sound(),
{
    let after = fabric.updated(plugin_id, registration_id, module);
    assert forall|plugin: u64| #[trigger]
        after.modules.contains_key(plugin) implies fabric.modules.contains_key(plugin)
        && after.modules[plugin].registration_id == fabric.modules[plugin].registration_id by {}
}

/// Routing a request and draining the events keep a fabric sound.
pub proof fn routing_and_draining_keep_soundness(
    fabric: FabricView,
    request: FabricRequestView,
    outcome: Option<FabricRouteView>,
)
    requires
        fabric.is_sound(),
    ensures
        fabric.routed(request, outcome).is_sound(),
        fabric.drained().is_sound(),
{
}

/// The number of a new registration is one that no module has, and the next registration
/// gets a higher one unless the numbers are used up.
pub proof fn registration_numbers_are_fresh(
    fabric: FabricView,
    registration: FabricModuleRegistrationView,
    plugin_id: PluginId,
)
    requires
        fabric.is_sound(),
    ensures
        !fabric.is_current(plugin_id, fabric.fresh_id()),
        fabric.next_registration_id < u64::MAX ==> fabric.registered(registration).fresh_id().0
            > fabric.fresh_id().0,
{
}

/// After a registration the new number is current for its plugin and no other number is; the
/// other plugins stand as before.
pub proof fn registration_takes_the_place(
    fabric: FabricView,
    registration: FabricModuleRegistrationView,
    plugin_id: PluginId,
    registration_id: FabricRegistrationId,
)
    ensures
        fabric.registered(registration).is_current(plugin_id, registration_id) <==> if plugin_id
            == registration.plugin_id {
            registration_id == fabric.fresh_id()
        } else {
            fabric.is_current(plugin_id, registration_id)
        },
        fabric.registered(registration).modules[registration.plugin_id.0] == FabricModuleView::of(
            fabric.fresh_id(),
            registration,
        ),
        plugin_id != registration.plugin_id ==> {
            &&& fabric.registered(registration).modules.contains_key(plugin_id.0)
                <==> fabric.modules.contains_key(plugin_id.0)
            &&& fabric.registered(registration).modules[plugin_id.0]
                == fabric.modules[plugin_id.0]
        },
{
}

/// Under a registration that is not current nothing changes: not by an unregistration, not by
/// a report, not by any change of the plugin's entry.
pub proof fn stale_registrations_change_nothing(
    fabric: FabricView,
    plugin_id: PluginId,
    registration_id: FabricRegistrationId,
    report: FabricReportView,
    module: FabricModuleView,
)
    requires
        !fabric.is_current(plugin_id, registration_id),
    ensures
        fabric.unregistered(plugin_id, registration_id) == fabric,
        fabric.reported(plugin_id, registration_id, report) == fabric,
        fabric.updated(plugin_id, registration_id, module) == fabric,
        !(fabric.report_outcome(plugin_id, registration_id) is Applied),
{
}

/// Registering a plugin again retires its earlier registration: the earlier number, which was
/// current, is current no more.
pub proof fn registering_again_retires_the_earlier(
    fabric: FabricView,
    registration: FabricModuleRegistrationView,
    earlier: FabricRegistrationId,
)
    requires
        fabric.is_sound(),
        fabric.is_current(registration.plugin_id, earlier),
    ensures
        earlier != fabric.fresh_id(),
        !fabric.registered(registration).is_current(registration.plugin_id, earlier),
        fabric.registered(registration).unregistered(registration.plugin_id, earlier)
            == fabric.registered(registration),
{
}

/// Unregistering the current registration takes the plugin out and leaves the others, and no
/// number of that plugin is current any more.
pub proof fn unregistering_takes_out(
    fabric: FabricView,
    plugin_id: PluginId,
    registration_id: FabricRegistrationId,
    any: FabricRegistrationId,
)
    requires
        fabric.is_current(plugin_id, registration_id),
    ensures
        fabric.unregistered(plugin_id, registration_id).modules == fabric.modules.remove(
            plugin_id.0,
        ),
        !fabric.unregistered(plugin_id, registration_id).is_current(plugin_id, any),
{
}

/// Unregistering undoes a registration: the modules are what they were without the plugin.
pub proof fn unregistering_undoes_registering(
    fabric: FabricView,
    registration: FabricModuleRegistrationView,
)
    ensures
        fabric.registered(registration).unregistered(
            registration.plugin_id,
            fabric.fresh_id(),
        ).modules == fabric.modules.remove(registration.plugin_id.0),
{
    assert(fabric.registered(registration).modules.remove(registration.plugin_id.0)
        =~= fabric.modules.remove(registration.plugin_id.0));
}

/// A change of a plugin's entry under its current registration puts the new entry in place,
/// leaves every other plugin as it was, notes that the plugin was updated and nothing else,
/// and brings the next generation, even where the entry stays the same.
pub proof fn updates_change_one_module(
    fabric: FabricView,
    plugin_id: PluginId,
    registration_id: FabricRegistrationId,
    module: FabricModuleView,
    other: u64,
)
    requires
        fabric.is_in_count(),
        fabric.is_current(plugin_id, registration_id),
    ensures
        ({
            let after = fabric.updated(plugin_id, registration_id, module);
            &&& after.modules.contains_key(plugin_id.0)
            &&& after.modules[plugin_id.0] == module
            &&& other != plugin_id.0 ==> {
                &&& after.modules.contains_key(other) <==> fabric.modules.contains_key(other)
                &&& after.modules[other] == fabric.modules[other]
            }
            &&& after.events == fabric.events.push(
                FabricEventView::Updated { registration_id, plugin_id },
            )
            &&& after.generation == crate::model::successor(fabric.generation)
            &&& after.next_registration_id == fabric.next_registration_id
        }),
{
}

/// A report under the current registration sets the one thing reported and leaves the
/// registration current.
pub proof fn reports_set_what_they_report(
    fabric: FabricView,
    plugin_id: PluginId,
    registration_id: FabricRegistrationId,
    report: FabricReportView,
)
    requires
        fabric.is_current(plugin_id, registration_id),
    ensures
        ({
            let before = fabric.modules[plugin_id.0];
            let after = fabric.reported(plugin_id, registration_id, report).modules[plugin_id.0];
            match report {
                FabricReportView::State(state) => after == (FabricModuleView { state, ..before }),
                FabricReportView::Health(health) => after == (FabricModuleView {
                    health,
                    ..before
                }),
                FabricReportView::Capabilities(capabilities) => after == (FabricModuleView {
                    capabilities,
                    ..before
                }),
            }
        }),
        fabric.reported(plugin_id, registration_id, report).is_current(plugin_id, registration_id),
        fabric.report_outcome(plugin_id, registration_id) is Applied,
{
}

/// A registration is current exactly when a snapshot shows the plugin under it. A report is
/// recorded exactly then.
pub proof fn current_registrations_are_shown(
    fabric: FabricView,
    snapshot: FabricSnapshotView,
    plugin_id: PluginId,
    registration_id: FabricRegistrationId,
)
    requires
        fabric.is_snapshot(snapshot),
    ensures
        fabric.is_current(plugin_id, registration_id) <==> exists|
            module: FabricModuleSnapshotView,
        | #[trigger]
            snapshot.modules.contains(module) && module.plugin_id == plugin_id
                && module.registration_id == registration_id,
        fabric.report_outcome(plugin_id, registration_id) is Applied <==> fabric.is_current(
            plugin_id,
            registration_id,
        ),
{
    if fabric.is_current(plugin_id, registration_id) {
        let shown = fabric.modules[plugin_id.0].snapshot(plugin_id);
        assert(snapshot.modules.contains(shown));
    }
}

/// Every change of the modules brings the next generation, and nothing else does.
pub proof fn changes_bring_the_next_generation(fabric: FabricView, step: FabricStep)
    requires
        fabric.is_in_count(),
    ensures
        step.of(fabric).is_in_count(),
        step.of(fabric).generation == if step.is_change(fabric) {
            crate::model::successor(fabric.generation)
        } else {
            fabric.generation
        },
{
}

/// Every change notes one event, after the ones that were there.
pub proof fn changes_are_noted(
    fabric: FabricView,
    registration: FabricModuleRegistrationView,
    plugin_id: PluginId,
    registration_id: FabricRegistrationId,
    module: FabricModuleView,
)
    ensures
        fabric.registered(registration).events.len() == fabric.events.len() + 1,
        fabric.registered(registration).events.drop_last() == fabric.events,
        fabric.is_current(plugin_id, registration_id) ==> {
            &&& fabric.unregistered(plugin_id, registration_id).events.len() == fabric.events.len()
                + 1
            &&& fabric.unregistered(plugin_id, registration_id).events.drop_last() == fabric.events
            &&& fabric.updated(plugin_id, registration_id, module).events.len()
                == fabric.events.len() + 1
            &&& fabric.updated(plugin_id, registration_id, module).events.drop_last()
                == fabric.events
        },
{
    assert(fabric.registered(registration).events.drop_last() =~= fabric.events);
    if fabric.is_current(plugin_id, registration_id) {
        assert(fabric.unregistered(plugin_id, registration_id).events.drop_last()
            =~= fabric.events);
        assert(fabric.updated(plugin_id, registration_id, module).events.drop_last()
            =~= fabric.events);
    }
}

/// Draining forgets the events and nothing else; a second drain finds none.
pub proof fn draining_forgets_the_events(fabric: FabricView)
    ensures
        fabric.drained() == (FabricView { events: Seq::empty(), ..fabric }),
        fabric.drained().events.len() == 0,
        fabric.drained().drained() == fabric.drained(),
{
}

// Histories.

proof fn lemma_step(fabric: FabricView, step: FabricStep)
    requires
        fabric.is_sound(),
        step is Register ==> fabric.next_registration_id < u64::MAX,
    ensures
        step.of(fabric).is_sound(),
        step.of(fabric).next_registration_id == fabric.next_registration_id + if step is Register {
            1int
        } else {
            0
        },
{
    match step {
        FabricStep::Register { registration } => registering_keeps_soundness(fabric, registration),
        FabricStep::Unregister { plugin_id, registration_id } => unregistering_keeps_soundness(
            fabric,
            plugin_id,
            registration_id,
        ),
        FabricStep::Report { plugin_id, registration_id, report } => reporting_keeps_soundness(
            fabric,
            plugin_id,
            registration_id,
            report,
        ),
        FabricStep::Route { request, outcome } => {},
        FabricStep::Drain => {},
    }
}

proof fn lemma_history(fabric: FabricView, steps: Seq<FabricStep>)
    requires
        fabric.is_sound(),
        fabric.next_registration_id + FabricStep::registrations(steps) <= u64::MAX,
    ensures
        FabricStep::all(steps, fabric).is_sound(),
        FabricStep::all(steps, fabric).next_registration_id == fabric.next_registration_id
            + FabricStep::registrations(steps),
    decreases steps.len(),
{
    if steps.len() > 0 {
        lemma_history(fabric, steps.drop_last());
        lemma_step(FabricStep::all(steps.drop_last(), fabric), steps.last());
    }
}

/// Every state that a fabric reaches from its start is sound, until the registration numbers
/// have gone round.
pub proof fn reached_states_are_sound(steps: Seq<FabricStep>)
    requires
        FabricStep::registrations(steps) < u64::MAX,
    ensures
        FabricStep::all(steps, FabricView::empty()).is_sound(),
{
    lemma_history(FabricView::empty(), steps);
}

/// The first registration gets number one, the next number two, and so on, round after the
/// greatest.
pub proof fn registrations_are_numbered_in_turn(steps: Seq<FabricStep>)
    ensures
        FabricStep::all(steps, FabricView::empty()).fresh_id().0 == (FabricStep::registrations(
            steps,
        ) + 1) % 0x1_0000_0000_0000_0000,
    decreases steps.len(),
{
    if steps.len() > 0 {
        registrations_are_numbered_in_turn(steps.drop_last());
    }
}

/// The generation counts the changes of the modules, round after the greatest, and the next
/// generation is always the one after it.
pub proof fn generations_count_the_changes(steps: Seq<FabricStep>)
    ensures
        FabricStep::all(steps, FabricView::empty()).is_in_count(),
        FabricStep::all(steps, FabricView::empty()).generation == FabricStep::changes(
            steps,
            FabricView::empty(),
        ) % 0x1_0000_0000_0000_0000,
    decreases steps.len(),
{
    if steps.len() > 0 {
        generations_count_the_changes(steps.drop_last());
        changes_bring_the_next_generation(
            FabricStep::all(steps.drop_last(), FabricView::empty()),
            steps.last(),
        );
    }
}

/// Operations keep the generations in count.
pub proof fn reached_states_are_in_count(start: FabricView, state: FabricView)
    requires
        start.is_in_count(),
        FabricStep::reaches(start, state),
    ensures
        state.is_in_count(),
{
    let steps = choose|steps: Seq<FabricStep>| #[trigger]
        FabricStep::all(steps, start) == state && FabricStep::can_all_happen(steps, start);
    lemma_in_count(start, steps);
}

proof fn lemma_in_count(start: FabricView, steps: Seq<FabricStep>)
    requires
        start.is_in_count(),
    ensures
        FabricStep::all(steps, start).is_in_count(),
    decreases steps.len(),
{
    if steps.len() > 0 {
        lemma_in_count(start, steps.drop_last());
        changes_bring_the_next_generation(
            FabricStep::all(steps.drop_last(), start),
            steps.last(),
        );
    }
}

/// No registration number is handed out twice: after a registration, whatever operations
/// follow, the next number is a higher one.
pub proof fn numbers_never_repeat(
    fabric: FabricView,
    registration: FabricModuleRegistrationView,
    steps: Seq<FabricStep>,
)
    requires
        fabric.is_sound(),
        fabric.next_registration_id + FabricStep::registrations(steps) < u64::MAX,
    ensures
        FabricStep::all(steps, fabric.registered(registration)).fresh_id().0
            > fabric.fresh_id().0,
{
    registering_keeps_soundness(fabric, registration);
    lemma_history(fabric.registered(registration), steps);
}

/// A retired registration stays retired: a number that was handed out and is not current for
/// a plugin is not current for it after any operations.
pub proof fn retired_registrations_stay_retired(
    fabric: FabricView,
    plugin_id: PluginId,
    registration_id: FabricRegistrationId,
    steps: Seq<FabricStep>,
)
    requires
        fabric.is_sound(),
        fabric.next_registration_id + FabricStep::registrations(steps) <= u64::MAX,
        registration_id.0 < fabric.next_registration_id,
        !fabric.is_current(plugin_id, registration_id),
    ensures
        !FabricStep::all(steps, fabric).is_current(plugin_id, registration_id),
    decreases steps.len(),
{
    if steps.len() > 0 {
        let before = FabricStep::all(steps.drop_last(), fabric);
        lemma_history(fabric, steps.drop_last());
        retired_registrations_stay_retired(
            fabric,
            plugin_id,
            registration_id,
            steps.drop_last(),
        );
        assert(!before.is_current(plugin_id, registration_id));
        assert(before.fresh_id() != registration_id);
    }
}

/// Every fabric reaches itself.
pub proof fn reaching_is_reflexive(fabric: FabricView)
    ensures
        FabricStep::reaches(fabric, fabric),
{
    let none = Seq::<FabricStep>::empty();
    assert(FabricStep::all(none, fabric) == fabric);
}

/// What is reached from a reached fabric is reached.
pub proof fn reaching_is_transitive(a: FabricView, b: FabricView, c: FabricView)
    requires
        FabricStep::reaches(a, b),
        FabricStep::reaches(b, c),
    ensures
        FabricStep::reaches(a, c),
{
    let first = choose|steps: Seq<FabricStep>| #[trigger]
        FabricStep::all(steps, a) == b && FabricStep::can_all_happen(steps, a);
    let rest = choose|steps: Seq<FabricStep>| #[trigger]
        FabricStep::all(steps, b) == c && FabricStep::can_all_happen(steps, b);
    lemma_one_after_the_other(first, rest, a);
    assert(FabricStep::all(first + rest, a) == c);
}

proof fn lemma_one_after_the_other(
    first: Seq<FabricStep>,
    rest: Seq<FabricStep>,
    fabric: FabricView,
)
    requires
        FabricStep::can_all_happen(first, fabric),
        FabricStep::can_all_happen(rest, FabricStep::all(first, fabric)),
    ensures
        FabricStep::all(first + rest, fabric) == FabricStep::all(
            rest,
            FabricStep::all(first, fabric),
        ),
        FabricStep::can_all_happen(first + rest, fabric),
    decreases rest.len(),
{
    if rest.len() == 0 {
        assert(first + rest =~= first);
    } else {
        assert((first + rest).drop_last() =~= first + rest.drop_last());
        lemma_one_after_the_other(first, rest.drop_last(), fabric);
    }
}

/// One operation reaches what it leads to.
pub proof fn steps_reach(before: FabricView, after: FabricView)
    requires
        FabricStep::leads(before, after),
    ensures
        FabricStep::reaches(before, after),
{
    let step = choose|step: FabricStep| #[trigger]
        step.of(before) == after && step.can_happen(before);
    let steps = seq![step];
    assert(steps.drop_last() =~= Seq::empty());
    assert(FabricStep::all(steps.drop_last(), before) == before);
    assert(FabricStep::can_all_happen(steps.drop_last(), before));
    assert(FabricStep::all(steps, before) == after);
}

/// Every routing event of a reached fabric tells of a candidate that could serve: it was
/// ready and not unhealthy, and its capability answers the request.
pub proof fn noted_routes_could_serve(state: FabricView, i: int)
    requires
        FabricStep::reaches(FabricView::empty(), state),
        0 <= i < state.events.len(),
    ensures
        state.events[i] matches FabricEventView::RouteResolved { request, selected } ==> {
            &&& selected.state is Ready
            &&& !(selected.health is Unhealthy)
            &&& selected.capability.capability.matches(request)
        },
{
    let steps = choose|steps: Seq<FabricStep>| #[trigger]
        FabricStep::all(steps, FabricView::empty()) == state && FabricStep::can_all_happen(
            steps,
            FabricView::empty(),
        );
    lemma_noted_routes(steps, i);
}

proof fn lemma_noted_routes(steps: Seq<FabricStep>, i: int)
    requires
        FabricStep::can_all_happen(steps, FabricView::empty()),
        0 <= i < FabricStep::all(steps, FabricView::empty()).events.len(),
    ensures
        ({
            let event = FabricStep::all(steps, FabricView::empty()).events[i];
            event matches FabricEventView::RouteResolved { request, selected } ==> {
                &&& selected.state is Ready
                &&& !(selected.health is Unhealthy)
                &&& selected.capability.capability.matches(request)
            }
        }),
    decreases steps.len(),
{
    if steps.len() > 0 {
        let before = FabricStep::all(steps.drop_last(), FabricView::empty());
        if i < before.events.len() {
            lemma_noted_routes(steps.drop_last(), i);
        }
        if let FabricStep::Route { request, outcome: Some(route) } = steps.last() {
            best_capability_is_best(before.modules[route.selected.plugin_id.0], request);
        }
    }
}

// Snapshots.

/// A snapshot shows each module once.
pub proof fn snapshot_shows_each_module_once(fabric: FabricView, snapshot: FabricSnapshotView)
    requires
        fabric.is_snapshot(snapshot),
    ensures
        fabric.modules.dom().finite(),
        snapshot.modules.len() == fabric.modules.dom().len(),
        forall|plugin: u64| #[trigger]
            fabric.modules.contains_key(plugin) ==> snapshot.modules.contains(
                fabric.modules[plugin].snapshot(PluginId(plugin)),
            ),
{
    let numbers = Seq::new(
        snapshot.modules.len(),
        |i: int| snapshot.modules[i].plugin_id.0,
    );
    assert(numbers.no_duplicates());
    numbers.unique_seq_to_set();
    assert forall|plugin: u64| #[trigger]
        fabric.modules.contains_key(plugin) implies snapshot.modules.contains(
        fabric.modules[plugin].snapshot(PluginId(plugin)),
    ) && numbers.contains(plugin) by {
        let shown = fabric.modules[plugin].snapshot(PluginId(plugin));
        assert(snapshot.modules.contains(shown));
        let i = choose|i: int| 0 <= i < snapshot.modules.len() && snapshot.modules[i] == shown;
        assert(numbers[i] == plugin);
    }
    assert forall|plugin: u64| #[trigger] numbers.contains(plugin) implies (
    fabric.modules.contains_key(plugin)) by {
        let i = choose|i: int| 0 <= i < numbers.len() && numbers[i] == plugin;
        assert(snapshot.modules.contains(snapshot.modules[i]));
    }
    assert(numbers.to_set() =~= fabric.modules.dom());
}

/// A fabric has one snapshot.
pub proof fn snapshot_is_unique(
    fabric: FabricView,
    left: FabricSnapshotView,
    right: FabricSnapshotView,
)
    requires
        fabric.is_snapshot(left),
        fabric.is_snapshot(right),
    ensures
        left == right,
{
    assert forall|module: FabricModuleSnapshotView| #[trigger]
        left.modules.contains(module) <==> right.modules.contains(module) by {
        assert(left.modules.contains(module) <==> fabric.has_module(module));
        assert(right.modules.contains(module) <==> fabric.has_module(module));
    }
    lemma_by_number_unique(left.modules, right.modules);
}

proof fn lemma_by_number_unique(
    left: Seq<FabricModuleSnapshotView>,
    right: Seq<FabricModuleSnapshotView>,
)
    requires
        forall|i: int, j: int|
            0 <= i < j < left.len() ==> (#[trigger] left[i]).plugin_id.0 < (
            #[trigger] left[j]).plugin_id.0,
        forall|i: int, j: int|
            0 <= i < j < right.len() ==> (#[trigger] right[i]).plugin_id.0 < (
            #[trigger] right[j]).plugin_id.0,
        forall|module: FabricModuleSnapshotView| #[trigger]
            left.contains(module) <==> right.contains(module),
    ensures
        left == right,
    decreases left.len(),
{
    if left.len() == 0 {
        if right.len() > 0 {
            assert(right.contains(right[0]));
            assert(left.contains(right[0]));
        }
        assert(left =~= right);
    } else {
        assert(left.contains(left[0]));
        let i = choose|i: int| 0 <= i < right.len() && right[i] == left[0];
        assert(right.contains(right[0]) && left.contains(right[0]));
        let j = choose|j: int| 0 <= j < left.len() && left[j] == right[0];
        assert(left[0] == right[0]);
        let rest = left.drop_first();
        let others = right.drop_first();
        assert forall|module: FabricModuleSnapshotView| #[trigger]
            rest.contains(module) <==> others.contains(module) by {
            if rest.contains(module) {
                let k = choose|k: int| 0 <= k < rest.len() && rest[k] == module;
                assert(left[k + 1] == module && left.contains(module));
                let m = choose|m: int| 0 <= m < right.len() && right[m] == module;
                assert(others[m - 1] == module);
            }
            if others.contains(module) {
                let k = choose|k: int| 0 <= k < others.len() && others[k] == module;
                assert(right[k + 1] == module && right.contains(module) && left.contains(module));
                let m = choose|m: int| 0 <= m < left.len() && left[m] == module;
                assert(rest[m - 1] == module);
            }
        }
        lemma_by_number_unique(rest, others);
        assert(left =~= seq![left[0]] + rest);
        assert(right =~= seq![right[0]] + others);
    }
}

} // verus!

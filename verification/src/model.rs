//! The fabric as a mathematical value, and what each operation makes of it.

use crate::fabric_types::{
    FabricCandidateView, FabricEventView, FabricHealth, FabricModuleRegistrationView,
    FabricModuleSnapshotView, FabricModuleState, FabricRegistrationId, FabricReportOutcome,
    FabricReportView, FabricRequestView, FabricRouteView, FabricSnapshotView, PluginId,
    RegisteredCapabilityView, VoltIDView,
};
use crate::routing::FabricRoutingPolicy;
use vstd::prelude::*;

verus! {

/// The number after `n`, where the greatest is followed by zero.
pub open spec fn successor(n: u64) -> u64 {
    if n == u64::MAX {
        0
    } else {
        (n + 1) as u64
    }
}

/// A module as the fabric keeps it under its plugin number.
pub struct FabricModuleView {
    pub registration_id: FabricRegistrationId,
    pub volt_id: VoltIDView,
    pub name: Seq<char>,
    pub capabilities: Seq<RegisteredCapabilityView>,
    pub state: FabricModuleState,
    pub health: FabricHealth,
}

impl FabricModuleView {
    /// The module that a registration under the given number brings.
    pub open spec fn of(
        registration_id: FabricRegistrationId,
        registration: FabricModuleRegistrationView,
    ) -> FabricModuleView {
        FabricModuleView {
            registration_id,
            volt_id: registration.volt_id,
            name: registration.name,
            capabilities: registration.capabilities,
            state: registration.state,
            health: registration.health,
        }
    }

    /// The module is in a state and a health in which it takes requests.
    pub open spec fn is_routable(self) -> bool {
        self.state is Ready && !(self.health is Unhealthy)
    }

    /// The module's capability at `i` is there and answers the request.
    pub open spec fn answers_at(self, request: FabricRequestView, i: int) -> bool {
        0 <= i < self.capabilities.len() && self.capabilities[i].capability.matches(request)
    }

    /// The module's capability at `i` is its best answer to the request: none is stronger,
    /// and none after it is as strong.
    pub open spec fn is_best_at(self, request: FabricRequestView, i: int) -> bool {
        &&& self.answers_at(request, i)
        &&& forall|j: int| #[trigger]
            self.answers_at(request, j) ==> !self.capabilities[i].capability.weaker_than(
                self.capabilities[j].capability,
                request,
            )
        &&& forall|j: int| #[trigger]
            self.answers_at(request, j) && i < j ==> self.capabilities[j].capability.weaker_than(
                self.capabilities[i].capability,
                request,
            )
    }

    /// The capability by which the module would serve the request, if it has any.
    pub open spec fn best_capability(self, request: FabricRequestView) -> Option<
        RegisteredCapabilityView,
    > {
        if exists|i: int| self.is_best_at(request, i) {
            Some(self.capabilities[choose|i: int| self.is_best_at(request, i)])
        } else {
            None
        }
    }

    /// The candidate that the module is for the request, if it is one.
    pub open spec fn candidate(self, plugin_id: PluginId, request: FabricRequestView) -> Option<
        FabricCandidateView,
    > {
        match self.best_capability(request) {
            Some(capability) if self.is_routable() => Some(
                FabricCandidateView {
                    registration_id: self.registration_id,
                    plugin_id,
                    volt_id: self.volt_id,
                    name: self.name,
                    capability,
                    state: self.state,
                    health: self.health,
                },
            ),
            _ => None,
        }
    }

    /// The module as a snapshot shows it.
    pub open spec fn snapshot(self, plugin_id: PluginId) -> FabricModuleSnapshotView {
        FabricModuleSnapshotView {
            registration_id: self.registration_id,
            plugin_id,
            volt_id: self.volt_id,
            name: self.name,
            capabilities: self.capabilities,
            state: self.state,
            health: self.health,
        }
    }

    /// A module has a best answer at one place at most.
    pub proof fn best_place_is_unique(self, request: FabricRequestView, i: int, j: int)
        requires
            self.is_best_at(request, i),
            self.is_best_at(request, j),
        ensures
            i == j,
    {
        assert(self.answers_at(request, i) && self.answers_at(request, j));
    }
}

/// The whole fabric: the modules by plugin number, what happened since the events were last
/// drained, and the counters.
#[verifier::ext_equal]
pub struct FabricView {
    pub modules: Map<u64, FabricModuleView>,
    pub events: Seq<FabricEventView>,
    pub generation: u64,
    pub next_registration_id: u64,
    pub next_generation: u64,
}

impl FabricView {
    /// The fabric at its start.
    pub open spec fn empty() -> FabricView {
        FabricView {
            modules: Map::empty(),
            events: Seq::empty(),
            generation: 0,
            next_registration_id: 1,
            next_generation: 1,
        }
    }

    /// The next generation is the one after the present.
    pub open spec fn is_in_count(self) -> bool {
        self.next_generation == successor(self.generation)
    }

    /// What holds of a fabric until the registration numbers have gone round: every number in
    /// use is below the next one, no two modules have the same, and the next generation is
    /// the one after the present.
    pub open spec fn is_sound(self) -> bool {
        &&& forall|plugin: u64| #[trigger]
            self.modules.contains_key(plugin) ==> self.modules[plugin].registration_id.0
                < self.next_registration_id
        &&& forall|p: u64, q: u64|
            #![trigger self.modules.contains_key(p), self.modules.contains_key(q)]
            self.modules.contains_key(p) && self.modules.contains_key(q) && p != q
                ==> self.modules[p].registration_id != self.modules[q].registration_id
        &&& self.is_in_count()
    }

    /// The fabric with one more event.
    pub open spec fn noted(self, event: FabricEventView) -> FabricView {
        FabricView { events: self.events.push(event), ..self }
    }

    /// The fabric in its next generation.
    pub open spec fn bumped(self) -> FabricView {
        FabricView {
            generation: self.next_generation,
            next_generation: successor(self.next_generation),
            ..self
        }
    }

    /// The number that the next registration gets.
    pub open spec fn fresh_id(self) -> FabricRegistrationId {
        FabricRegistrationId(self.next_registration_id)
    }

    /// The fabric after a registration: the module stands under its plugin number, in place
    /// of one that stood there before.
    pub open spec fn registered(self, registration: FabricModuleRegistrationView) -> FabricView {
        let plugin_id = registration.plugin_id;
        let event = if self.modules.contains_key(plugin_id.0) {
            FabricEventView::Updated { registration_id: self.fresh_id(), plugin_id }
        } else {
            FabricEventView::Registered {
                registration_id: self.fresh_id(),
                plugin_id,
                name: registration.name,
            }
        };
        FabricView {
            modules: self.modules.insert(
                plugin_id.0,
                FabricModuleView::of(self.fresh_id(), registration),
            ),
            next_registration_id: successor(self.next_registration_id),
            ..self
        }.noted(event).bumped()
    }

    /// The registration is the one under which the plugin stands in the fabric now.
    pub open spec fn is_current(
        self,
        plugin_id: PluginId,
        registration_id: FabricRegistrationId,
    ) -> bool {
        self.modules.contains_key(plugin_id.0) && self.modules[plugin_id.0].registration_id
            == registration_id
    }

    /// The fabric after a module leaves. A registration that is not current changes nothing.
    pub open spec fn unregistered(
        self,
        plugin_id: PluginId,
        registration_id: FabricRegistrationId,
    ) -> FabricView {
        if self.is_current(plugin_id, registration_id) {
            let name = self.modules[plugin_id.0].name;
            FabricView { modules: self.modules.remove(plugin_id.0), ..self }.noted(
                FabricEventView::Unregistered { registration_id, plugin_id, name },
            ).bumped()
        } else {
            self
        }
    }

    /// The fabric after a module's entry became `module`. A registration that is not current
    /// changes nothing.
    pub open spec fn updated(
        self,
        plugin_id: PluginId,
        registration_id: FabricRegistrationId,
        module: FabricModuleView,
    ) -> FabricView {
        if self.is_current(plugin_id, registration_id) {
            FabricView { modules: self.modules.insert(plugin_id.0, module), ..self }.noted(
                FabricEventView::Updated { registration_id, plugin_id },
            ).bumped()
        } else {
            self
        }
    }

    /// The fabric after a module reports its state.
    pub open spec fn with_state(
        self,
        plugin_id: PluginId,
        registration_id: FabricRegistrationId,
        state: FabricModuleState,
    ) -> FabricView {
        self.updated(
            plugin_id,
            registration_id,
            FabricModuleView { state, ..self.modules[plugin_id.0] },
        )
    }

    /// The fabric after a module reports its health.
    pub open spec fn with_health(
        self,
        plugin_id: PluginId,
        registration_id: FabricRegistrationId,
        health: FabricHealth,
    ) -> FabricView {
        self.updated(
            plugin_id,
            registration_id,
            FabricModuleView { health, ..self.modules[plugin_id.0] },
        )
    }

    /// The fabric after a module reports what it offers.
    pub open spec fn with_capabilities(
        self,
        plugin_id: PluginId,
        registration_id: FabricRegistrationId,
        capabilities: Seq<RegisteredCapabilityView>,
    ) -> FabricView {
        self.updated(
            plugin_id,
            registration_id,
            FabricModuleView { capabilities, ..self.modules[plugin_id.0] },
        )
    }

    /// The fabric after a module's report.
    pub open spec fn reported(
        self,
        plugin_id: PluginId,
        registration_id: FabricRegistrationId,
        report: FabricReportView,
    ) -> FabricView {
        match report {
            FabricReportView::State(state) => self.with_state(plugin_id, registration_id, state),
            FabricReportView::Health(health) => self.with_health(
                plugin_id,
                registration_id,
                health,
            ),
            FabricReportView::Capabilities(capabilities) => self.with_capabilities(
                plugin_id,
                registration_id,
                capabilities,
            ),
        }
    }

    /// What becomes of a report under the registration.
    pub open spec fn report_outcome(
        self,
        plugin_id: PluginId,
        registration_id: FabricRegistrationId,
    ) -> FabricReportOutcome {
        if self.is_current(plugin_id, registration_id) {
            FabricReportOutcome::Applied
        } else if self.modules.contains_key(plugin_id.0) {
            FabricReportOutcome::Stale
        } else {
            FabricReportOutcome::Unknown
        }
    }

    /// The fabric after its events were drained.
    pub open spec fn drained(self) -> FabricView {
        FabricView { events: Seq::empty(), ..self }
    }

    /// The candidate is what the module under its plugin number is for the request.
    pub open spec fn has_candidate(
        self,
        candidate: FabricCandidateView,
        request: FabricRequestView,
    ) -> bool {
        let plugin_id = candidate.plugin_id;
        &&& self.modules.contains_key(plugin_id.0)
        &&& self.modules[plugin_id.0].candidate(plugin_id, request) == Some(candidate)
    }

    /// The ranking holds the candidates for the request and no others, each ahead of all
    /// that follow it.
    pub open spec fn is_ranking<P: FabricRoutingPolicy + ?Sized>(
        self,
        request: FabricRequestView,
        policy: &P,
        ranking: Seq<FabricCandidateView>,
    ) -> bool {
        &&& forall|candidate: FabricCandidateView| #[trigger]
            ranking.contains(candidate) <==> self.has_candidate(candidate, request)
        &&& forall|i: int, j: int|
            0 <= i < j < ranking.len() ==> (#[trigger] ranking[i]).ahead_of(
                #[trigger] ranking[j],
                request,
                policy,
            )
    }

    /// The outcome is where the request goes: to the head of the ranking, or nowhere when
    /// there is no candidate.
    pub open spec fn is_route<P: FabricRoutingPolicy + ?Sized>(
        self,
        request: FabricRequestView,
        policy: &P,
        outcome: Option<FabricRouteView>,
    ) -> bool {
        match outcome {
            Some(route) => {
                &&& self.is_ranking(request, policy, route.candidates)
                &&& route.candidates.len() > 0
                &&& route.selected == route.candidates[0]
                &&& route.request == request
            },
            None => forall|candidate: FabricCandidateView| !self.has_candidate(candidate, request),
        }
    }

    /// The fabric after a request was routed with the given outcome.
    pub open spec fn routed(
        self,
        request: FabricRequestView,
        outcome: Option<FabricRouteView>,
    ) -> FabricView {
        match outcome {
            Some(route) => self.noted(
                FabricEventView::RouteResolved { request, selected: route.selected },
            ),
            None => self.noted(FabricEventView::RouteMiss { request }),
        }
    }

    /// The module stands in the fabric under its plugin number and is as shown.
    pub open spec fn has_module(self, module: FabricModuleSnapshotView) -> bool {
        &&& self.modules.contains_key(module.plugin_id.0)
        &&& self.modules[module.plugin_id.0].snapshot(module.plugin_id) == module
    }

    /// The snapshot shows the fabric: every module and nothing else, by rising plugin number.
    pub open spec fn is_snapshot(self, snapshot: FabricSnapshotView) -> bool {
        &&& snapshot.generation == self.generation
        &&& forall|module: FabricModuleSnapshotView| #[trigger]
            snapshot.modules.contains(module) <==> self.has_module(module)
        &&& forall|i: int, j: int|
            0 <= i < j < snapshot.modules.len() ==> (#[trigger] snapshot.modules[i]).plugin_id.0 < (
            #[trigger] snapshot.modules[j]).plugin_id.0
    }
}

/// One operation on a fabric.
pub enum FabricStep {
    Register { registration: FabricModuleRegistrationView },
    Unregister { plugin_id: PluginId, registration_id: FabricRegistrationId },
    Report {
        plugin_id: PluginId,
        registration_id: FabricRegistrationId,
        report: FabricReportView,
    },
    Route { request: FabricRequestView, outcome: Option<FabricRouteView> },
    Drain,
}

impl FabricStep {
    /// The fabric after the operation.
    pub open spec fn of(self, fabric: FabricView) -> FabricView {
        match self {
            FabricStep::Register { registration } => fabric.registered(registration),
            FabricStep::Unregister { plugin_id, registration_id } => fabric.unregistered(
                plugin_id,
                registration_id,
            ),
            FabricStep::Report { plugin_id, registration_id, report } => fabric.reported(
                plugin_id,
                registration_id,
                report,
            ),
            FabricStep::Route { request, outcome } => fabric.routed(request, outcome),
            FabricStep::Drain => fabric.drained(),
        }
    }

    /// The operation can happen in the fabric: a request is routed to a candidate for it, and
    /// nowhere only where there is none.
    pub open spec fn can_happen(self, fabric: FabricView) -> bool {
        match self {
            FabricStep::Route { request, outcome: Some(route) } => fabric.has_candidate(
                route.selected,
                request,
            ),
            FabricStep::Route { request, outcome: None } => forall|
                candidate: FabricCandidateView,
            | !fabric.has_candidate(candidate, request),
            _ => true,
        }
    }

    /// The fabric after operations one after the other.
    pub open spec fn all(steps: Seq<FabricStep>, fabric: FabricView) -> FabricView
        decreases steps.len(),
    {
        if steps.len() == 0 {
            fabric
        } else {
            steps.last().of(Self::all(steps.drop_last(), fabric))
        }
    }

    /// The operations can happen one after the other.
    pub open spec fn can_all_happen(steps: Seq<FabricStep>, fabric: FabricView) -> bool
        decreases steps.len(),
    {
        steps.len() > 0 ==> {
            &&& Self::can_all_happen(steps.drop_last(), fabric)
            &&& steps.last().can_happen(Self::all(steps.drop_last(), fabric))
        }
    }

    /// How many of the operations are registrations.
    pub open spec fn registrations(steps: Seq<FabricStep>) -> nat
        decreases steps.len(),
    {
        if steps.len() == 0 {
            0
        } else if steps.last() is Register {
            Self::registrations(steps.drop_last()) + 1
        } else {
            Self::registrations(steps.drop_last())
        }
    }

    /// The operation changes the modules: it registers, or it unregisters or reports under a
    /// registration that is current.
    pub open spec fn is_change(self, fabric: FabricView) -> bool {
        match self {
            FabricStep::Register { .. } => true,
            FabricStep::Unregister { plugin_id, registration_id } => fabric.is_current(
                plugin_id,
                registration_id,
            ),
            FabricStep::Report { plugin_id, registration_id, .. } => fabric.is_current(
                plugin_id,
                registration_id,
            ),
            FabricStep::Route { .. } => false,
            FabricStep::Drain => false,
        }
    }

    /// How many of the operations, one after the other, change the modules.
    pub open spec fn changes(steps: Seq<FabricStep>, fabric: FabricView) -> nat
        decreases steps.len(),
    {
        if steps.len() == 0 {
            0
        } else if steps.last().is_change(Self::all(steps.drop_last(), fabric)) {
            Self::changes(steps.drop_last(), fabric) + 1
        } else {
            Self::changes(steps.drop_last(), fabric)
        }
    }

    /// One operation that can happen leads from the one fabric to the other.
    pub open spec fn leads(before: FabricView, after: FabricView) -> bool {
        exists|step: FabricStep| #[trigger] step.of(before) == after && step.can_happen(before)
    }

    /// Operations that can happen one after the other lead from the one fabric to the other.
    pub open spec fn reaches(start: FabricView, state: FabricView) -> bool {
        exists|steps: Seq<FabricStep>| #[trigger]
            Self::all(steps, start) == state && Self::can_all_happen(steps, start)
    }

    /// The first step ends before the second begins, or the second before the first, or they
    /// are the same step.
    pub open spec fn in_turn(
        before: FabricView,
        after: FabricView,
        other_before: FabricView,
        other_after: FabricView,
    ) -> bool {
        ||| Self::reaches(after, other_before)
        ||| Self::reaches(other_after, before)
        ||| before == other_before && after == other_after
    }
}

} // verus!

//! The fabric that modules and callers share.

use crate::fabric_types::{
    FabricEvent, FabricEventView, FabricHealth, FabricModuleRegistration, FabricModuleState,
    FabricRegistrationId, FabricReport, FabricReportOutcome, FabricRequest, FabricRoute,
    FabricRouteView, FabricSnapshot, PluginId, RegisteredCapability, RegisteredCapabilityView,
};
use crate::inner::FabricInner;
use crate::lock;
use crate::model::{FabricStep, FabricView};
use crate::routing::{DefaultFabricRoutingPolicy, FabricRoutingPolicy};
use parking_lot::RwLock;
use std::sync::Arc;
use vstd::prelude::*;

verus! {

/// A fabric with many owners, of any policy or of a given one.
pub type SharedFabric<P = dyn FabricRoutingPolicy> = Arc<WasmFabric<P>>;

/// The modules of an editor and the rules by which requests are routed among them. Any number
/// of threads may use it at once: each operation finds the fabric in some state and, where it
/// changes it, changes it in one step.
pub struct WasmFabric<P: FabricRoutingPolicy + ?Sized = dyn FabricRoutingPolicy> {
    inner: RwLock<FabricInner>,
    routing_policy: Arc<P>,
}

impl<P: FabricRoutingPolicy + ?Sized> WasmFabric<P> {
    /// The state in which the fabric was made.
    pub closed spec fn started_as(&self) -> FabricView {
        lock::made_with(self.inner)
    }

    /// Every fabric starts empty.
    #[verifier::type_invariant]
    spec fn started_empty(&self) -> bool {
        self.started_as() == FabricView::empty()
    }

    /// At some moment the fabric was in this state. Operations led to it from the empty
    /// fabric, and every change of the fabric came before that moment or after it.
    pub open spec fn was_in(&self, state: FabricView) -> bool {
        &&& self.was_seen_in(state)
        &&& FabricStep::reaches(FabricView::empty(), state)
        &&& forall|before: FabricView, after: FabricView| #[trigger]
            self.was_changed(before, after) ==> FabricStep::reaches(after, state)
                || FabricStep::reaches(state, before)
    }

    /// At some moment the fabric went from the one state to the other in one step. Operations
    /// led to the first from the empty fabric, and every other change of the fabric came
    /// before this one or after it.
    pub open spec fn went(&self, before: FabricView, after: FabricView) -> bool {
        &&& self.was_changed(before, after)
        &&& FabricStep::reaches(FabricView::empty(), before)
        &&& forall|other_before: FabricView, other_after: FabricView| #[trigger]
            self.was_changed(other_before, other_after) ==> FabricStep::in_turn(
                other_before,
                other_after,
                before,
                after,
            )
    }

    /// At some moment a reader found the fabric in this state.
    pub closed spec fn was_seen_in(&self, state: FabricView) -> bool {
        lock::was_read(self.inner, state)
    }

    /// At some moment a writer found the fabric in the one state and left it in the other.
    pub closed spec fn was_changed(&self, before: FabricView, after: FabricView) -> bool {
        lock::was_written(self.inner, before, after)
    }

    /// The policy by which candidates are scored.
    pub closed spec fn policy(&self) -> Arc<P> {
        self.routing_policy
    }

    /// Two changes of a fabric are one, or one ends before the other begins: from where it
    /// left the fabric, operations lead to where the other found it.
    pub proof fn changes_come_in_turn(
        &self,
        before: FabricView,
        after: FabricView,
        other_before: FabricView,
        other_after: FabricView,
    )
        requires
            self.went(before, after),
            self.went(other_before, other_after),
        ensures
            FabricStep::in_turn(before, after, other_before, other_after),
            self.was_changed(before, after),
            self.was_changed(other_before, other_after),
    {
    }

    /// A look at a fabric comes before or after any change of it, and shows a state that
    /// operations led to.
    pub proof fn looks_come_between_changes(
        &self,
        state: FabricView,
        before: FabricView,
        after: FabricView,
    )
        requires
            self.was_in(state),
            self.went(before, after),
        ensures
            FabricStep::reaches(after, state) || FabricStep::reaches(state, before),
            FabricStep::reaches(FabricView::empty(), state),
            self.was_seen_in(state),
    {
    }

    /// A fabric without modules that scores candidates by `policy`.
    pub fn with_policy(policy: Arc<P>) -> (fabric: Self)
        ensures
            fabric.started_as() == FabricView::empty(),
            fabric.policy() == policy,
    {
        WasmFabric { inner: lock::make(FabricInner::new()), routing_policy: policy }
    }

    /// Takes a module in and returns the number of its registration. A module that stood
    /// under the same plugin number is replaced.
    pub fn register(&self, registration: FabricModuleRegistration) -> (registration_id:
        FabricRegistrationId)
        ensures
            exists|before: FabricView| #[trigger]
                self.went(before, before.registered(registration@)) && registration_id
                    == before.fresh_id(),
    {
        let change = |inner: &mut FabricInner| -> (registration_id: FabricRegistrationId)
            ensures
                registration_id == old(inner)@.fresh_id(),
                final(inner)@ == old(inner)@.registered(registration@),
        {
            inner.register(registration)
        };
        assert forall|inner: &mut FabricInner, registration_id: FabricRegistrationId| #[trigger]
            call_ensures(change, (inner,), registration_id) implies FabricStep::leads(
            (*inner)@,
            (*final(inner))@,
        ) by {
            let step = FabricStep::Register { registration: registration@ };
            assert(step.of((*inner)@) == (*final(inner))@);
        }
        proof {
            use_type_invariant(self);
        }
        let (registration_id, Ghost(before), Ghost(after)) = lock::write(&self.inner, change);
        assert(self.went(before, after));
        registration_id
    }

    /// Lets a module go. A registration that is not current is ignored.
    pub fn unregister(&self, plugin_id: PluginId, registration_id: FabricRegistrationId) -> (
    removed: bool)
        ensures
            exists|before: FabricView| #[trigger]
                self.went(before, before.unregistered(plugin_id, registration_id)) && removed
                    == before.is_current(plugin_id, registration_id),
    {
        let change = |inner: &mut FabricInner| -> (removed: bool)
            ensures
                removed == old(inner)@.is_current(plugin_id, registration_id),
                final(inner)@ == old(inner)@.unregistered(plugin_id, registration_id),
        {
            inner.unregister(plugin_id, registration_id)
        };
        assert forall|inner: &mut FabricInner, removed: bool| #[trigger]
            call_ensures(change, (inner,), removed) implies FabricStep::leads(
            (*inner)@,
            (*final(inner))@,
        ) by {
            let step = FabricStep::Unregister { plugin_id, registration_id };
            assert(step.of((*inner)@) == (*final(inner))@);
        }
        proof {
            use_type_invariant(self);
        }
        let (removed, Ghost(before), Ghost(after)) = lock::write(&self.inner, change);
        assert(self.went(before, after));
        removed
    }

    /// Records a module's report, and says what became of it. Under a registration that is not
    /// current it is ignored.
    pub fn report(
        &self,
        plugin_id: PluginId,
        registration_id: FabricRegistrationId,
        report: FabricReport,
    ) -> (outcome: FabricReportOutcome)
        ensures
            exists|before: FabricView| #[trigger]
                self.went(before, before.reported(plugin_id, registration_id, report@)) && outcome
                    == before.report_outcome(plugin_id, registration_id),
    {
        let change = |inner: &mut FabricInner| -> (outcome: FabricReportOutcome)
            ensures
                outcome == old(inner)@.report_outcome(plugin_id, registration_id),
                final(inner)@ == old(inner)@.reported(plugin_id, registration_id, report@),
        {
            inner.report(plugin_id, registration_id, report)
        };
        assert forall|inner: &mut FabricInner, outcome: FabricReportOutcome| #[trigger]
            call_ensures(change, (inner,), outcome) implies FabricStep::leads(
            (*inner)@,
            (*final(inner))@,
        ) by {
            let step = FabricStep::Report { plugin_id, registration_id, report: report@ };
            assert(step.of((*inner)@) == (*final(inner))@);
        }
        proof {
            use_type_invariant(self);
        }
        let (outcome, Ghost(before), Ghost(after)) = lock::write(&self.inner, change);
        assert(self.went(before, after));
        outcome
    }

    /// Records the state that a module reports. A registration that is not current is ignored.
    pub fn update_state(
        &self,
        plugin_id: PluginId,
        registration_id: FabricRegistrationId,
        state: FabricModuleState,
    ) -> (updated: bool)
        ensures
            exists|before: FabricView| #[trigger]
                self.went(before, before.with_state(plugin_id, registration_id, state))
                    && updated == before.is_current(plugin_id, registration_id),
    {
        let outcome = self.report(plugin_id, registration_id, FabricReport::State(state));
        matches!(outcome, FabricReportOutcome::Applied)
    }

    /// Records the health that a module reports. A registration that is not current is
    /// ignored.
    pub fn update_health(
        &self,
        plugin_id: PluginId,
        registration_id: FabricRegistrationId,
        health: FabricHealth,
    ) -> (updated: bool)
        ensures
            exists|before: FabricView| #[trigger]
                self.went(before, before.with_health(plugin_id, registration_id, health))
                    && updated == before.is_current(plugin_id, registration_id),
    {
        let outcome = self.report(plugin_id, registration_id, FabricReport::Health(health));
        matches!(outcome, FabricReportOutcome::Applied)
    }

    /// Records what a module offers. A registration that is not current is ignored.
    pub fn update_capabilities(
        &self,
        plugin_id: PluginId,
        registration_id: FabricRegistrationId,
        capabilities: Vec<RegisteredCapability>,
    ) -> (updated: bool)
        ensures
            exists|before: FabricView| #[trigger]
                self.went(
                    before,
                    before.with_capabilities(
                        plugin_id,
                        registration_id,
                        RegisteredCapabilityView::each(capabilities@),
                    ),
                ) && updated == before.is_current(plugin_id, registration_id),
    {
        let report = FabricReport::Capabilities(capabilities);
        let outcome = self.report(plugin_id, registration_id, report);
        matches!(outcome, FabricReportOutcome::Applied)
    }

    /// Finds the module that serves a request: of the modules that are ready, not unhealthy
    /// and able, the one that the policy ranks first. The outcome is noted as an event.
    pub fn route(&self, request: FabricRequest) -> (outcome: Option<FabricRoute>)
        ensures
            exists|before: FabricView| #[trigger]
                self.went(before, before.routed(request@, FabricRouteView::of(outcome)))
                    && before.is_route(request@, &*self.policy(), FabricRouteView::of(outcome)),
    {
        let policy = &*self.routing_policy;
        let change = |inner: &mut FabricInner| -> (outcome: Option<FabricRoute>)
            ensures
                old(inner)@.is_route(request@, policy, FabricRouteView::of(outcome)),
                final(inner)@ == old(inner)@.routed(request@, FabricRouteView::of(outcome)),
        {
            inner.route(request, policy)
        };
        assert forall|inner: &mut FabricInner, outcome: Option<FabricRoute>| #[trigger]
            call_ensures(change, (inner,), outcome) implies FabricStep::leads(
            (*inner)@,
            (*final(inner))@,
        ) by {
            let step = FabricStep::Route {
                request: request@,
                outcome: FabricRouteView::of(outcome),
            };
            if let Some(route) = FabricRouteView::of(outcome) {
                assert(route.candidates.contains(route.candidates[0]));
            }
            assert(step.of((*inner)@) == (*final(inner))@);
        }
        proof {
            use_type_invariant(self);
        }
        let (outcome, Ghost(before), Ghost(after)) = lock::write(&self.inner, change);
        assert(self.went(before, after));
        outcome
    }

    /// The modules by plugin number. Looking changes nothing.
    pub fn snapshot(&self) -> (snapshot: FabricSnapshot)
        ensures
            exists|state: FabricView| #[trigger]
                self.was_in(state) && state.is_snapshot(snapshot@),
        opens_invariants none
    {
        let look = |inner: &FabricInner| -> (snapshot: FabricSnapshot)
            ensures
                inner@.is_snapshot(snapshot@),
        { inner.snapshot() };
        proof {
            use_type_invariant(self);
        }
        let (snapshot, Ghost(state)) = lock::read(&self.inner, look);
        assert(self.was_in(state));
        snapshot
    }

    /// The events since they were last drained. Looking changes nothing.
    pub fn events(&self) -> (events: Vec<FabricEvent>)
        ensures
            exists|state: FabricView| #[trigger]
                self.was_in(state) && FabricEventView::each(events@) == state.events,
        opens_invariants none
    {
        let look = |inner: &FabricInner| -> (events: Vec<FabricEvent>)
            ensures
                FabricEventView::each(events@) == inner@.events,
        { inner.events() };
        proof {
            use_type_invariant(self);
        }
        let (events, Ghost(state)) = lock::read(&self.inner, look);
        assert(self.was_in(state));
        events
    }

    /// Hands out the events since they were last drained, and forgets them.
    pub fn drain_events(&self) -> (events: Vec<FabricEvent>)
        ensures
            exists|before: FabricView| #[trigger]
                self.went(before, before.drained()) && FabricEventView::each(events@)
                    == before.events,
    {
        let change = |inner: &mut FabricInner| -> (events: Vec<FabricEvent>)
            ensures
                FabricEventView::each(events@) == old(inner)@.events,
                final(inner)@ == old(inner)@.drained(),
        { inner.drain_events() };
        assert forall|inner: &mut FabricInner, events: Vec<FabricEvent>| #[trigger]
            call_ensures(change, (inner,), events) implies FabricStep::leads(
            (*inner)@,
            (*final(inner))@,
        ) by {
            let step = FabricStep::Drain;
            assert(step.of((*inner)@) == (*final(inner))@);
        }
        proof {
            use_type_invariant(self);
        }
        let (events, Ghost(before), Ghost(after)) = lock::write(&self.inner, change);
        assert(self.went(before, after));
        events
    }
}

impl WasmFabric<DefaultFabricRoutingPolicy> {
    /// A fabric without modules that scores candidates by the default policy.
    pub fn new() -> (fabric: Self)
        ensures
            fabric.started_as() == FabricView::empty(),
            *fabric.policy() == DefaultFabricRoutingPolicy,
    {
        Self::with_policy(Arc::new(DefaultFabricRoutingPolicy))
    }
}

impl Default for WasmFabric<DefaultFabricRoutingPolicy> {
    fn default() -> (fabric: Self)
        ensures
            fabric.started_as() == FabricView::empty(),
            *fabric.policy() == DefaultFabricRoutingPolicy,
    {
        Self::new()
    }
}

} // verus!

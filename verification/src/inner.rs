//! The fabric's state, for one owner at a time.

use crate::fabric_types::{
    clone_capabilities, FabricCandidate, FabricCandidateView, FabricCapabilityView, FabricEvent,
    FabricEventView, FabricHealth, FabricModuleRegistration, FabricModuleSnapshot,
    FabricModuleSnapshotView, FabricModuleState, FabricRegistrationId, FabricReport,
    FabricReportOutcome, FabricRequest, FabricRequestView, FabricRoute, FabricRouteView,
    FabricSnapshot, FabricSnapshotView, PluginId, RegisteredCapability, RegisteredCapabilityView,
    VoltID,
};
use crate::model::{FabricModuleView, FabricView};
use crate::routing::{compare_candidates, compare_capabilities, FabricRoutingPolicy};
use core::cmp::Ordering;
use std::collections::HashMap;
use vstd::prelude::*;

verus! {

broadcast use vstd::std_specs::hash::group_hash_axioms;

/// A module as it is kept under its plugin number.
pub struct FabricModuleRecord {
    pub registration_id: FabricRegistrationId,
    pub volt_id: VoltID,
    pub name: String,
    pub capabilities: Vec<RegisteredCapability>,
    pub state: FabricModuleState,
    pub health: FabricHealth,
}

impl View for FabricModuleRecord {
    type V = FabricModuleView;

    open spec fn view(&self) -> FabricModuleView {
        FabricModuleView {
            registration_id: self.registration_id,
            volt_id: self.volt_id@,
            name: self.name@,
            capabilities: RegisteredCapabilityView::each(self.capabilities@),
            state: self.state,
            health: self.health,
        }
    }
}

/// The modules, the events and the counters of a fabric.
pub struct FabricInner {
    modules: HashMap<u64, FabricModuleRecord>,
    events: Vec<FabricEvent>,
    generation: u64,
    next_registration_id: u64,
    next_generation: u64,
}

/// What each of the records says.
spec fn module_views(modules: Map<u64, FabricModuleRecord>) -> Map<u64, FabricModuleView> {
    modules.map_values(|module: FabricModuleRecord| module@)
}

impl View for FabricInner {
    type V = FabricView;

    closed spec fn view(&self) -> FabricView {
        FabricView {
            modules: module_views(self.modules@),
            events: FabricEventView::each(self.events@),
            generation: self.generation,
            next_registration_id: self.next_registration_id,
            next_generation: self.next_generation,
        }
    }
}

impl FabricModuleRecord {
    /// The candidate that the module is for the request.
    fn candidate(&self, plugin_id: PluginId, request: &FabricRequest) -> (candidate: Option<
        FabricCandidate,
    >)
        ensures
            match candidate {
                Some(candidate) => self@.candidate(plugin_id, request@) == Some(candidate@),
                None => self@.candidate(plugin_id, request@) is None,
            },
    {
        if !self.state.is_routable() || !self.health.is_routable() {
            return None;
        }
        match self.best_capability(request) {
            Some(capability) => Some(
                FabricCandidate {
                    registration_id: self.registration_id,
                    plugin_id,
                    volt_id: self.volt_id.clone(),
                    name: self.name.clone(),
                    capability: capability.clone(),
                    state: self.state,
                    health: self.health,
                },
            ),
            None => None,
        }
    }

    /// The module as a snapshot shows it.
    fn snapshot(&self, plugin_id: PluginId) -> (snapshot: FabricModuleSnapshot)
        ensures
            snapshot@ == self@.snapshot(plugin_id),
    {
        FabricModuleSnapshot {
            registration_id: self.registration_id,
            plugin_id,
            volt_id: self.volt_id.clone(),
            name: self.name.clone(),
            capabilities: clone_capabilities(&self.capabilities),
            state: self.state,
            health: self.health,
        }
    }

    /// The module's best answer to the request.
    fn best_capability(&self, request: &FabricRequest) -> (best: Option<&RegisteredCapability>)
        ensures
            match best {
                Some(capability) => self@.best_capability(request@) == Some(capability@),
                None => self@.best_capability(request@) is None,
            },
    {
        let ghost module = self@;
        let ghost asked = request@;
        let mut best: Option<usize> = None;
        let mut k: usize = 0;
        while k < self.capabilities.len()
            invariant
                k <= self.capabilities@.len(),
                module == self@,
                asked == request@,
                match best {
                    None => forall|j: int| 0 <= j < k ==> !#[trigger] module.answers_at(asked, j),
                    Some(b) => {
                        &&& b < k
                        &&& module.answers_at(asked, b as int)
                        &&& forall|j: int|
                            #![trigger module.answers_at(asked, j)]
                            module.answers_at(asked, j) && j < k
                                ==> !module.capabilities[b as int].capability.weaker_than(
                                module.capabilities[j].capability,
                                asked,
                            )
                        &&& forall|j: int|
                            #![trigger module.answers_at(asked, j)]
                            module.answers_at(asked, j) && b < j < k
                                ==> module.capabilities[j].capability.weaker_than(
                                module.capabilities[b as int].capability,
                                asked,
                            )
                    },
                },
            decreases self.capabilities@.len() - k,
        {
            let capability = &self.capabilities[k];
            assert(module.capabilities[k as int] == capability@);
            if capability.capability.matches(request) {
                assert(module.answers_at(asked, k as int));
                proof {
                    FabricCapabilityView::order_is_total(
                        capability@.capability,
                        capability@.capability,
                        asked,
                    );
                }
                best = match best {
                    None => Some(k),
                    Some(b) => {
                        let stays = is_weaker(capability, &self.capabilities[b], request);
                        proof {
                            let own = module.capabilities[k as int].capability;
                            let strongest = module.capabilities[b as int].capability;
                            FabricCapabilityView::order_is_total(own, strongest, asked);
                            assert forall|j: int| #[trigger]
                                module.answers_at(asked, j) && j < k
                                    && !stays implies !own.weaker_than(
                                module.capabilities[j].capability,
                                asked,
                            ) by {
                                FabricCapabilityView::strength_is_transitive(
                                    own,
                                    strongest,
                                    module.capabilities[j].capability,
                                    asked,
                                );
                            }
                        }
                        if stays {
                            Some(b)
                        } else {
                            Some(k)
                        }
                    },
                };
            } else {
                assert(!module.answers_at(asked, k as int));
            }
            k = k + 1;
        }
        match best {
            Some(b) => {
                proof {
                    assert(module.is_best_at(asked, b as int));
                    let chosen = choose|i: int| module.is_best_at(asked, i);
                    module.best_place_is_unique(asked, b as int, chosen);
                }
                Some(&self.capabilities[b])
            },
            None => {
                assert forall|i: int| !module.is_best_at(asked, i) by {
                    assert(!module.answers_at(asked, i));
                }
                None
            },
        }
    }
}

/// The pairs are the entries of the map, each once.
spec fn lists(
    pairs: Seq<(&u64, &FabricModuleRecord)>,
    modules: Map<u64, FabricModuleRecord>,
) -> bool {
    &&& pairs.no_duplicates()
    &&& forall|i: int|
        0 <= i < pairs.len() ==> modules.contains_key(*(#[trigger] pairs[i]).0)
            && modules[*pairs[i].0] == *pairs[i].1
    &&& forall|k: u64| #[trigger]
        modules.contains_key(k) ==> pairs.contains((&k, &modules[k]))
}

/// The plugin numbers are those of the first `n` pairs.
spec fn are_first(
    pairs: Seq<(&u64, &FabricModuleRecord)>,
    n: int,
    plugins: Set<u64>,
) -> bool {
    &&& forall|i: int| 0 <= i < n ==> plugins.contains(*(#[trigger] pairs[i]).0)
    &&& forall|k: u64| #[trigger]
        plugins.contains(k) ==> exists|i: int| 0 <= i < n && k == *(#[trigger] pairs[i]).0
}

/// The next pair has a plugin number that none before it has.
proof fn lemma_next_is_new(
    pairs: Seq<(&u64, &FabricModuleRecord)>,
    modules: Map<u64, FabricModuleRecord>,
    n: int,
    plugins: Set<u64>,
)
    requires
        lists(pairs, modules),
        are_first(pairs, n, plugins),
        0 <= n < pairs.len(),
    ensures
        !plugins.contains(*pairs[n].0),
{
    if plugins.contains(*pairs[n].0) {
        let i = choose|i: int| 0 <= i < n && *pairs[n].0 == *(#[trigger] pairs[i]).0;
        assert(pairs[i] == pairs[n]);
    }
}

/// The fabric with the modules of the given plugin numbers alone.
spec fn part(fabric: FabricView, plugins: Set<u64>) -> FabricView {
    FabricView { modules: fabric.modules.restrict(plugins), ..fabric }
}

/// Each candidate goes ahead of all that follow it.
spec fn is_ranked<P: FabricRoutingPolicy + ?Sized>(
    candidates: Seq<FabricCandidateView>,
    request: FabricRequestView,
    policy: &P,
) -> bool {
    forall|i: int, j: int|
        0 <= i < j < candidates.len() ==> (#[trigger] candidates[i]).ahead_of(
            #[trigger] candidates[j],
            request,
            policy,
        )
}

/// Whether the first candidate goes ahead of the second.
fn is_ahead<P: FabricRoutingPolicy + ?Sized>(
    left: &FabricCandidate,
    right: &FabricCandidate,
    request: &FabricRequest,
    policy: &P,
) -> (ahead: bool)
    ensures
        ahead == left@.ahead_of(right@, request@, policy),
{
    matches!(compare_candidates(left, right, request, policy), Ordering::Less)
}

/// Puts a candidate in its place among ranked candidates of other plugins.
fn place_candidate<P: FabricRoutingPolicy + ?Sized>(
    candidates: &mut Vec<FabricCandidate>,
    candidate: FabricCandidate,
    request: &FabricRequest,
    policy: &P,
)
    requires
        is_ranked(FabricCandidateView::each(old(candidates)@), request@, policy),
        forall|i: int|
            0 <= i < old(candidates)@.len() ==> (#[trigger] old(candidates)@[i]).plugin_id
                != candidate.plugin_id,
    ensures
        is_ranked(FabricCandidateView::each(final(candidates)@), request@, policy),
        forall|other: FabricCandidateView| #[trigger]
            FabricCandidateView::each(final(candidates)@).contains(other) <==> {
                ||| FabricCandidateView::each(old(candidates)@).contains(other)
                ||| other == candidate@
            },
{
    let ghost before = FabricCandidateView::each(candidates@);
    let mut place: usize = 0;
    while place < candidates.len() && is_ahead(&candidates[place], &candidate, request, policy)
        invariant
            place <= candidates@.len(),
            before == FabricCandidateView::each(candidates@),
            forall|i: int|
                0 <= i < place ==> (#[trigger] before[i]).ahead_of(
                    candidate@,
                    request@,
                    policy,
                ),
        decreases candidates@.len() - place,
    {
        place = place + 1;
    }
    proof {
        assert forall|i: int| place <= i < before.len() implies candidate@.ahead_of(
            #[trigger] before[i],
            request@,
            policy,
        ) by {
            let at = before[place as int];
            assert(candidates@[place as int].plugin_id != candidate.plugin_id);
            FabricCandidateView::order_is_total(at, candidate@, request@, policy);
            if i > place {
                FabricCandidateView::order_is_transitive(
                    candidate@,
                    at,
                    before[i],
                    request@,
                    policy,
                );
            }
        }
    }
    candidates.insert(place, candidate);
    proof {
        let after = FabricCandidateView::each(candidates@);
        assert(after =~= before.insert(place as int, candidate@));
        lemma_insert_contains(before, place as int, candidate@);
    }
}

/// Puts a module in its place by plugin number among other modules.
fn place_module(modules: &mut Vec<FabricModuleSnapshot>, module: FabricModuleSnapshot)
    requires
        is_by_number(FabricModuleSnapshotView::each(old(modules)@)),
        forall|i: int|
            0 <= i < old(modules)@.len() ==> (#[trigger] old(modules)@[i]).plugin_id
                != module.plugin_id,
    ensures
        is_by_number(FabricModuleSnapshotView::each(final(modules)@)),
        forall|other: FabricModuleSnapshotView| #[trigger]
            FabricModuleSnapshotView::each(final(modules)@).contains(other) <==> {
                ||| FabricModuleSnapshotView::each(old(modules)@).contains(other)
                ||| other == module@
            },
{
    let ghost before = FabricModuleSnapshotView::each(modules@);
    let mut place: usize = 0;
    while place < modules.len() && modules[place].plugin_id.0 < module.plugin_id.0
        invariant
            place <= modules@.len(),
            before == FabricModuleSnapshotView::each(modules@),
            forall|i: int|
                0 <= i < place ==> (#[trigger] before[i]).plugin_id.0 < module.plugin_id.0,
        decreases modules@.len() - place,
    {
        place = place + 1;
    }
    proof {
        if place < before.len() {
            assert(modules@[place as int].plugin_id != module.plugin_id);
            assert(before[place as int].plugin_id.0 > module.plugin_id.0);
        }
    }
    modules.insert(place, module);
    proof {
        let after = FabricModuleSnapshotView::each(modules@);
        assert(after =~= before.insert(place as int, module@));
        lemma_insert_contains(before, place as int, module@);
    }
}

/// The modules stand by rising plugin number.
spec fn is_by_number(modules: Seq<FabricModuleSnapshotView>) -> bool {
    forall|i: int, j: int|
        0 <= i < j < modules.len() ==> (#[trigger] modules[i]).plugin_id.0 < (
        #[trigger] modules[j]).plugin_id.0
}

/// A sequence with one more item holds that item and the ones it held before.
proof fn lemma_insert_contains<E>(items: Seq<E>, place: int, item: E)
    requires
        0 <= place <= items.len(),
    ensures
        forall|other: E| #[trigger]
            items.insert(place, item).contains(other) <==> items.contains(other) || other == item,
{
    let after = items.insert(place, item);
    assert(after[place] == item);
    assert forall|other: E| items.contains(other) implies #[trigger] after.contains(other) by {
        let i = choose|i: int| 0 <= i < items.len() && items[i] == other;
        assert(after[if i < place { i } else { i + 1 }] == other);
    }
    assert forall|other: E| #[trigger] after.contains(other) implies items.contains(other) || other
        == item by {
        let i = choose|i: int| 0 <= i < after.len() && after[i] == other;
        if i < place {
            assert(items[i] == other);
        } else if i > place {
            assert(items[i - 1] == other);
        }
    }
}

/// Whether the first capability is the weaker answer.
fn is_weaker(
    left: &RegisteredCapability,
    right: &RegisteredCapability,
    request: &FabricRequest,
) -> (weaker: bool)
    ensures
        weaker == left@.capability.weaker_than(right@.capability, request@),
{
    matches!(compare_capabilities(left, right, request), Ordering::Less)
}

impl FabricInner {
    /// A fabric without modules.
    pub fn new() -> (inner: Self)
        ensures
            inner@ == FabricView::empty(),
    {
        let inner = FabricInner {
            modules: HashMap::new(),
            events: Vec::new(),
            generation: 0,
            next_registration_id: 1,
            next_generation: 1,
        };
        assert(inner@ =~= FabricView::empty());
        inner
    }

    /// Adds an event to the log.
    fn note(&mut self, event: FabricEvent)
        ensures
            final(self)@ == old(self)@.noted(event@),
            final(self).modules == old(self).modules,
    {
        self.events.push(event);
        assert(self@ =~= old(self)@.noted(event@));
    }

    /// Enters the next generation.
    fn bump_generation(&mut self)
        ensures
            final(self)@ == old(self)@.bumped(),
            final(self).modules == old(self).modules,
    {
        self.generation = self.next_generation;
        self.next_generation = self.next_generation.wrapping_add(1);
    }

    /// Takes a module in, under a registration number of its own.
    pub fn register(&mut self, registration: FabricModuleRegistration) -> (registration_id:
        FabricRegistrationId)
        ensures
            registration_id == old(self)@.fresh_id(),
            final(self)@ == old(self)@.registered(registration@),
    {
        let registration_id = FabricRegistrationId(self.next_registration_id);
        self.next_registration_id = self.next_registration_id.wrapping_add(1);
        let plugin_id = registration.plugin_id;
        let event = if self.modules.contains_key(&plugin_id.0) {
            FabricEvent::Updated { registration_id, plugin_id }
        } else {
            FabricEvent::Registered { registration_id, plugin_id, name: registration.name.clone() }
        };
        let record = FabricModuleRecord {
            registration_id,
            volt_id: registration.volt_id,
            name: registration.name,
            capabilities: registration.capabilities,
            state: registration.state,
            health: registration.health,
        };
        self.modules.insert(plugin_id.0, record);
        self.note(event);
        self.bump_generation();
        assert(self@ =~= old(self)@.registered(registration@));
        registration_id
    }

    /// Whether the registration is the one under which the plugin stands in the fabric.
    fn holds(&self, plugin_id: PluginId, registration_id: FabricRegistrationId) -> (current: bool)
        ensures
            current == self@.is_current(plugin_id, registration_id),
    {
        match self.modules.get(&plugin_id.0) {
            Some(module) => module.registration_id == registration_id,
            None => false,
        }
    }

    /// Lets a module go. A registration that is not current is ignored.
    pub fn unregister(&mut self, plugin_id: PluginId, registration_id: FabricRegistrationId) -> (
    removed: bool)
        ensures
            removed == old(self)@.is_current(plugin_id, registration_id),
            final(self)@ == old(self)@.unregistered(plugin_id, registration_id),
    {
        if !self.holds(plugin_id, registration_id) {
            return false;
        }
        if let Some(module) = self.modules.remove(&plugin_id.0) {
            self.note(FabricEvent::Unregistered { registration_id, plugin_id, name: module.name });
            self.bump_generation();
            assert(self@ =~= old(self)@.unregistered(plugin_id, registration_id));
            return true;
        }
        false
    }

    /// Changes a module's entry: `update` is called on it, once. Under a registration that is
    /// not current nothing changes and `update` is not called.
    pub fn update_module<F: FnOnce(&mut FabricModuleRecord)>(
        &mut self,
        plugin_id: PluginId,
        registration_id: FabricRegistrationId,
        update: F,
    ) -> (updated: bool)
        requires
            forall|module: &mut FabricModuleRecord|
                old(self)@.is_current(plugin_id, registration_id) && (*module)@ == old(
                    self,
                )@.modules[plugin_id.0] ==> #[trigger] update.requires((module,)),
        ensures
            updated == old(self)@.is_current(plugin_id, registration_id),
            !updated ==> final(self)@ == old(self)@,
            updated ==> exists|module: &mut FabricModuleRecord| #[trigger]
                update.ensures((module,), ()) && (*module)@ == old(self)@.modules[plugin_id.0]
                    && final(self)@ == old(self)@.updated(
                    plugin_id,
                    registration_id,
                    (*final(module))@,
                ),
    {
        if !self.holds(plugin_id, registration_id) {
            return false;
        }
        if let Some(mut module) = self.modules.remove(&plugin_id.0) {
            update(&mut module);
            self.modules.insert(plugin_id.0, module);
            self.note(FabricEvent::Updated { registration_id, plugin_id });
            self.bump_generation();
            assert(self@ =~= old(self)@.updated(plugin_id, registration_id, module@));
            return true;
        }
        false
    }

    /// Records the state that a module reports.
    pub fn update_state(
        &mut self,
        plugin_id: PluginId,
        registration_id: FabricRegistrationId,
        state: FabricModuleState,
    ) -> (updated: bool)
        ensures
            updated == old(self)@.is_current(plugin_id, registration_id),
            final(self)@ == old(self)@.with_state(plugin_id, registration_id, state),
    {
        let report = |module: &mut FabricModuleRecord| -> (done: ())
            ensures
                (*final(module))@ == (FabricModuleView { state, ..(*old(module))@ }),
        {
            module.state = state;
        };
        self.update_module(plugin_id, registration_id, report)
    }

    /// Records the health that a module reports.
    pub fn update_health(
        &mut self,
        plugin_id: PluginId,
        registration_id: FabricRegistrationId,
        health: FabricHealth,
    ) -> (updated: bool)
        ensures
            updated == old(self)@.is_current(plugin_id, registration_id),
            final(self)@ == old(self)@.with_health(plugin_id, registration_id, health),
    {
        let report = |module: &mut FabricModuleRecord| -> (done: ())
            ensures
                (*final(module))@ == (FabricModuleView { health, ..(*old(module))@ }),
        {
            module.health = health;
        };
        self.update_module(plugin_id, registration_id, report)
    }

    /// Records what a module offers.
    pub fn update_capabilities(
        &mut self,
        plugin_id: PluginId,
        registration_id: FabricRegistrationId,
        capabilities: Vec<RegisteredCapability>,
    ) -> (updated: bool)
        ensures
            updated == old(self)@.is_current(plugin_id, registration_id),
            final(self)@ == old(self)@.with_capabilities(
                plugin_id,
                registration_id,
                RegisteredCapabilityView::each(capabilities@),
            ),
    {
        let report = |module: &mut FabricModuleRecord| -> (done: ())
            ensures
                (*final(module))@ == (FabricModuleView {
                    capabilities: RegisteredCapabilityView::each(capabilities@),
                    ..(*old(module))@
                }),
        {
            module.capabilities = capabilities;
        };
        self.update_module(plugin_id, registration_id, report)
    }

    /// Records a module's report, and says what became of it.
    pub fn report(
        &mut self,
        plugin_id: PluginId,
        registration_id: FabricRegistrationId,
        report: FabricReport,
    ) -> (outcome: FabricReportOutcome)
        ensures
            outcome == old(self)@.report_outcome(plugin_id, registration_id),
            final(self)@ == old(self)@.reported(plugin_id, registration_id, report@),
    {
        let known = self.modules.contains_key(&plugin_id.0);
        let updated = match report {
            FabricReport::State(state) => self.update_state(plugin_id, registration_id, state),
            FabricReport::Health(health) => self.update_health(plugin_id, registration_id, health),
            FabricReport::Capabilities(capabilities) => self.update_capabilities(
                plugin_id,
                registration_id,
                capabilities,
            ),
        };
        if updated {
            FabricReportOutcome::Applied
        } else if known {
            FabricReportOutcome::Stale
        } else {
            FabricReportOutcome::Unknown
        }
    }

    /// The candidates for a request, ranked.
    fn ranking<P: FabricRoutingPolicy + ?Sized>(&self, request: &FabricRequest, policy: &P) -> (
    candidates: Vec<FabricCandidate>)
        ensures
            self@.is_ranking(request@, policy, FabricCandidateView::each(candidates@)),
    {
        let mut candidates: Vec<FabricCandidate> = Vec::new();
        let ghost asked = request@;
        let ghost fabric = self@;
        let ghost mut seen: Set<u64> = Set::empty();
        for entry in entries: self.modules.iter()
            invariant
                asked == request@,
                fabric == self@,
                lists(entries.seq(), self.modules@),
                are_first(entries.seq(), entries.index(), seen),
                part(fabric, seen).is_ranking(
                    asked,
                    policy,
                    FabricCandidateView::each(candidates@),
                ),
        {
            let (plugin, module) = entry;
            proof {
                let ranked = FabricCandidateView::each(candidates@);
                lemma_next_is_new(entries.seq(), self.modules@, entries.index(), seen);
                assert forall|i: int| 0 <= i < candidates@.len() implies (
                #[trigger] candidates@[i]).plugin_id != PluginId(*plugin) by {
                    assert(ranked.contains(ranked[i]));
                }
            }
            if let Some(candidate) = module.candidate(PluginId(*plugin), request) {
                place_candidate(&mut candidates, candidate, request, policy);
            }
            proof {
                seen = seen.insert(*plugin);
            }
        }
        candidates
    }

    /// Routes a request: ranks the modules that can serve it, selects the first, and notes
    /// the outcome.
    pub fn route<P: FabricRoutingPolicy + ?Sized>(
        &mut self,
        request: FabricRequest,
        policy: &P,
    ) -> (outcome: Option<FabricRoute>)
        ensures
            old(self)@.is_route(request@, policy, FabricRouteView::of(outcome)),
            final(self)@ == old(self)@.routed(request@, FabricRouteView::of(outcome)),
    {
        let candidates = self.ranking(&request, policy);
        let ghost ranked = FabricCandidateView::each(candidates@);
        if candidates.len() > 0 {
            let selected = candidates[0].clone();
            let route = FabricRoute {
                request: request.clone(),
                selected: selected.clone(),
                candidates,
            };
            self.note(FabricEvent::RouteResolved { request, selected });
            return Some(route);
        }
        assert forall|candidate: FabricCandidateView| !self@.has_candidate(candidate, request@) by {
            assert(!ranked.contains(candidate));
        }
        self.note(FabricEvent::RouteMiss { request });
        None
    }

    /// The modules by plugin number.
    pub fn snapshot(&self) -> (snapshot: FabricSnapshot)
        ensures
            self@.is_snapshot(snapshot@),
    {
        let mut modules: Vec<FabricModuleSnapshot> = Vec::new();
        let ghost fabric = self@;
        let ghost mut seen: Set<u64> = Set::empty();
        for entry in entries: self.modules.iter()
            invariant
                fabric == self@,
                lists(entries.seq(), self.modules@),
                are_first(entries.seq(), entries.index(), seen),
                part(fabric, seen).is_snapshot(
                    FabricSnapshotView {
                        generation: fabric.generation,
                        modules: FabricModuleSnapshotView::each(modules@),
                    },
                ),
        {
            let (plugin, module) = entry;
            proof {
                let shown = FabricModuleSnapshotView::each(modules@);
                lemma_next_is_new(entries.seq(), self.modules@, entries.index(), seen);
                assert forall|i: int| 0 <= i < modules@.len() implies (
                #[trigger] modules@[i]).plugin_id != PluginId(*plugin) by {
                    assert(shown.contains(shown[i]));
                }
            }
            place_module(&mut modules, module.snapshot(PluginId(*plugin)));
            proof {
                seen = seen.insert(*plugin);
            }
        }
        FabricSnapshot { generation: self.generation, modules }
    }

    /// Hands out the events so far and forgets them.
    pub fn drain_events(&mut self) -> (events: Vec<FabricEvent>)
        ensures
            FabricEventView::each(events@) == old(self)@.events,
            final(self)@ == old(self)@.drained(),
    {
        let mut events: Vec<FabricEvent> = Vec::new();
        std::mem::swap(&mut events, &mut self.events);
        assert(self@ =~= old(self)@.drained());
        events
    }

    /// The events so far.
    pub fn events(&self) -> (events: Vec<FabricEvent>)
        ensures
            FabricEventView::each(events@) == self@.events,
    {
        let events = self.events.clone();
        assert(FabricEventView::each(events@) =~= self@.events);
        events
    }
}

} // verus!

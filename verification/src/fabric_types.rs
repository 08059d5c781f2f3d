//! The data that the fabric passes around: capabilities, requests, registrations,
//! candidates, routes, snapshots and events, each with its mathematical view.

use crate::text;
use core::cmp::Ordering;
use vstd::prelude::*;

verus! {

/// `String`'s `From<&str>`, by which a `&str` converts into a `String`: it holds the same
/// text.
pub assume_specification<'a>[ <String as core::convert::From<&'a str>>::from ](s: &str) -> (r:
    String)
    ensures
        r@ == s@,
;

/// The identity conversion, `From<V>` for `V`, by which a `String` converts into itself: it
/// returns its argument unchanged.
pub assume_specification<V>[ <V as core::convert::From<V>>::from ](v: V) -> (r: V)
    ensures
        r == v,
;

/// The number under which a plugin instance runs.
#[derive(Debug, Clone, Copy, PartialEq, Eq, Hash, Structural)]
pub struct PluginId(pub u64);

/// The published identity of a plugin: who wrote it and what it is called.
#[derive(Debug, PartialEq, Eq, Hash)]
pub struct VoltID {
    pub author: String,
    pub name: String,
}

/// What a [`VoltID`] says.
pub struct VoltIDView {
    pub author: Seq<char>,
    pub name: Seq<char>,
}

impl View for VoltID {
    type V = VoltIDView;

    open spec fn view(&self) -> VoltIDView {
        VoltIDView { author: self.author@, name: self.name@ }
    }
}

impl Clone for VoltID {
    fn clone(&self) -> (copy: Self)
        ensures
            copy@ == self@,
    {
        VoltID { author: self.author.clone(), name: self.name.clone() }
    }
}

/// An operation that a module can perform, in all languages or in one, with the priority
/// it claims among modules that can perform the same.
#[derive(Debug, PartialEq, Eq, Hash)]
pub struct FabricCapability {
    pub namespace: String,
    pub operation: String,
    /// `None` serves every request as a generic fallback; `"*"` is the wildcard.
    pub language: Option<String>,
    pub priority: i32,
}

/// What a [`FabricCapability`] says.
pub struct FabricCapabilityView {
    pub namespace: Seq<char>,
    pub operation: Seq<char>,
    pub language: Option<Seq<char>>,
    pub priority: i32,
}

impl View for FabricCapability {
    type V = FabricCapabilityView;

    open spec fn view(&self) -> FabricCapabilityView {
        FabricCapabilityView {
            namespace: self.namespace@,
            operation: self.operation@,
            language: text::optional_text(self.language),
            priority: self.priority,
        }
    }
}

impl Clone for FabricCapability {
    fn clone(&self) -> (copy: Self)
        ensures
            copy@ == self@,
    {
        FabricCapability {
            namespace: self.namespace.clone(),
            operation: self.operation.clone(),
            language: self.language.clone(),
            priority: self.priority,
        }
    }
}

impl FabricCapabilityView {
    /// The language of a capability that accepts every language by name.
    pub open spec fn wildcard() -> Seq<char> {
        seq!['*']
    }

    /// The capability answers the request: it is the same operation of the same namespace,
    /// and the capability is generic, is a wildcard, or names the request's language.
    pub open spec fn matches(self, request: FabricRequestView) -> bool {
        &&& self.namespace == request.namespace
        &&& self.operation == request.operation
        &&& {
            ||| self.language is None
            ||| self.language == Some(Self::wildcard())
            ||| self.language == request.language
        }
    }

    /// How closely the capability's language fits the request's: 3 for the same language,
    /// 2 for the wildcard, 1 for a generic capability, 0 for another language.
    pub open spec fn specificity(self, request: FabricRequestView) -> u8 {
        if self.language is Some && self.language == request.language {
            3
        } else if self.language == Some(Self::wildcard()) {
            2
        } else if self.language is None {
            1
        } else {
            0
        }
    }
}

/// Whether the text is the wildcard.
fn is_wildcard(language: &String) -> (wildcard: bool)
    ensures
        wildcard == (language@ == FabricCapabilityView::wildcard()),
{
    proof {
        reveal_strlit("*");
        assert("*"@ =~= FabricCapabilityView::wildcard());
    }
    matches!(text::compare_text(language.as_str(), "*"), Ordering::Equal)
}

impl FabricCapability {
    /// A generic capability of priority zero.
    pub fn new<N: Into<String>, O: Into<String>>(namespace: N, operation: O) -> (capability: Self)
        ensures
            call_ensures(<N as Into<String>>::into, (namespace,), capability.namespace),
            call_ensures(<O as Into<String>>::into, (operation,), capability.operation),
            capability@.language is None,
            capability@.priority == 0,
    {
        FabricCapability {
            namespace: namespace.into(),
            operation: operation.into(),
            language: None,
            priority: 0,
        }
    }

    /// Restricts the capability to a language.
    pub fn language<L: Into<String>>(self, language: L) -> (capability: Self)
        ensures
            capability.language is Some,
            call_ensures(<L as Into<String>>::into, (language,), capability.language.unwrap()),
            capability@ == (FabricCapabilityView { language: capability@.language, ..self@ }),
    {
        FabricCapability { language: Some(language.into()), ..self }
    }

    /// Sets the priority.
    pub fn priority(self, priority: i32) -> (capability: Self)
        ensures
            capability@ == (FabricCapabilityView { priority, ..self@ }),
    {
        FabricCapability { priority, ..self }
    }

    /// Whether the capability answers the request.
    pub fn matches(&self, request: &FabricRequest) -> (matching: bool)
        ensures
            matching == self@.matches(request@),
    {
        if self.namespace != request.namespace || self.operation != request.operation {
            return false;
        }
        match (&self.language, &request.language) {
            (None, _) => true,
            (Some(own), None) => is_wildcard(own),
            (Some(own), Some(asked)) => is_wildcard(own) || *own == *asked,
        }
    }

    /// How closely the capability's language fits the request's.
    pub fn specificity(&self, request: &FabricRequest) -> (specificity: u8)
        ensures
            specificity == self@.specificity(request@),
    {
        match (&self.language, &request.language) {
            (None, _) => 1,
            (Some(own), None) => if is_wildcard(own) { 2 } else { 0 },
            (Some(own), Some(asked)) => if *own == *asked {
                3
            } else if is_wildcard(own) {
                2
            } else {
                0
            },
        }
    }
}

/// A call for an operation, in a language or in none.
#[derive(Debug, PartialEq, Eq, Hash)]
pub struct FabricRequest {
    pub namespace: String,
    pub operation: String,
    pub language: Option<String>,
}

/// What a [`FabricRequest`] says.
pub struct FabricRequestView {
    pub namespace: Seq<char>,
    pub operation: Seq<char>,
    pub language: Option<Seq<char>>,
}

impl View for FabricRequest {
    type V = FabricRequestView;

    open spec fn view(&self) -> FabricRequestView {
        FabricRequestView {
            namespace: self.namespace@,
            operation: self.operation@,
            language: text::optional_text(self.language),
        }
    }
}

impl Clone for FabricRequest {
    fn clone(&self) -> (copy: Self)
        ensures
            copy@ == self@,
    {
        FabricRequest {
            namespace: self.namespace.clone(),
            operation: self.operation.clone(),
            language: self.language.clone(),
        }
    }
}

impl FabricRequest {
    /// A request in no particular language.
    pub fn new<N: Into<String>, O: Into<String>>(namespace: N, operation: O) -> (request: Self)
        ensures
            call_ensures(<N as Into<String>>::into, (namespace,), request.namespace),
            call_ensures(<O as Into<String>>::into, (operation,), request.operation),
            request@.language is None,
    {
        FabricRequest { namespace: namespace.into(), operation: operation.into(), language: None }
    }

    /// Asks for a language.
    pub fn language<L: Into<String>>(self, language: L) -> (request: Self)
        ensures
            request.language is Some,
            call_ensures(<L as Into<String>>::into, (language,), request.language.unwrap()),
            request@ == (FabricRequestView { language: request@.language, ..self@ }),
    {
        FabricRequest { language: Some(language.into()), ..self }
    }
}

/// Where a capability was declared.
#[derive(Debug, Clone, Copy, PartialEq, Eq, Hash, Structural)]
pub enum CapabilitySource {
    VoltManifest,
}

/// A capability as a module holds it, with where it was declared.
#[derive(Debug, PartialEq, Eq, Hash)]
pub struct RegisteredCapability {
    pub capability: FabricCapability,
    pub source: CapabilitySource,
}

/// What a [`RegisteredCapability`] says.
pub struct RegisteredCapabilityView {
    pub capability: FabricCapabilityView,
    pub source: CapabilitySource,
}

impl View for RegisteredCapability {
    type V = RegisteredCapabilityView;

    open spec fn view(&self) -> RegisteredCapabilityView {
        RegisteredCapabilityView { capability: self.capability@, source: self.source }
    }
}

impl Clone for RegisteredCapability {
    fn clone(&self) -> (copy: Self)
        ensures
            copy@ == self@,
    {
        RegisteredCapability { capability: self.capability.clone(), source: self.source }
    }
}

impl RegisteredCapability {
    /// A capability declared in `source`.
    pub fn new(capability: FabricCapability, source: CapabilitySource) -> (registered: Self)
        ensures
            registered@ == (RegisteredCapabilityView { capability: capability@, source }),
    {
        RegisteredCapability { capability, source }
    }
}

impl RegisteredCapabilityView {
    /// What each of a list of capabilities says.
    pub open spec fn each(capabilities: Seq<RegisteredCapability>) -> Seq<
        RegisteredCapabilityView,
    > {
        Seq::new(capabilities.len(), |i: int| capabilities[i]@)
    }
}

/// Copies a list of capabilities.
pub(crate) fn clone_capabilities(capabilities: &Vec<RegisteredCapability>) -> (copy: Vec<
    RegisteredCapability,
>)
    ensures
        RegisteredCapabilityView::each(copy@) == RegisteredCapabilityView::each(capabilities@),
{
    let copy = capabilities.clone();
    assert(RegisteredCapabilityView::each(copy@) =~= RegisteredCapabilityView::each(capabilities@));
    copy
}

/// Where a module is in its life.
#[derive(Debug, Clone, Copy, PartialEq, Eq, Structural)]
pub enum FabricModuleState {
    Starting,
    Ready,
    Suspended,
    Stopping,
    Stopped,
    Failed,
}

impl Default for FabricModuleState {
    fn default() -> (state: Self)
        ensures
            state is Starting,
    {
        FabricModuleState::Starting
    }
}

impl FabricModuleState {
    /// Only a ready module takes requests.
    pub fn is_routable(self) -> (routable: bool)
        ensures
            routable == (self is Ready),
    {
        matches!(self, FabricModuleState::Ready)
    }
}

/// How well a module is doing.
#[derive(Debug, Clone, Copy, PartialEq, Eq, Structural)]
pub enum FabricHealth {
    Unknown,
    Healthy,
    Degraded,
    Unhealthy,
}

impl Default for FabricHealth {
    fn default() -> (health: Self)
        ensures
            health is Unknown,
    {
        FabricHealth::Unknown
    }
}

impl FabricHealth {
    /// The weight of a health in routing: the healthier, the more.
    pub open spec fn weight(self) -> u8 {
        match self {
            FabricHealth::Healthy => 3,
            FabricHealth::Unknown => 2,
            FabricHealth::Degraded => 1,
            FabricHealth::Unhealthy => 0,
        }
    }

    /// The weight of this health in routing.
    pub fn routing_rank(self) -> (rank: u8)
        ensures
            rank == self.weight(),
    {
        match self {
            FabricHealth::Healthy => 3,
            FabricHealth::Unknown => 2,
            FabricHealth::Degraded => 1,
            FabricHealth::Unhealthy => 0,
        }
    }

    /// Every module but an unhealthy one takes requests.
    pub fn is_routable(self) -> (routable: bool)
        ensures
            routable == !(self is Unhealthy),
    {
        !matches!(self, FabricHealth::Unhealthy)
    }
}

/// The number of one registration of a module.
#[derive(Debug, Clone, Copy, PartialEq, Eq, PartialOrd, Ord, Hash, Structural)]
pub struct FabricRegistrationId(pub u64);

impl FabricRegistrationId {
    /// The number in decimal digits.
    pub fn to_string(&self) -> (digits: String)
        ensures
            digits@ == text::decimal(self.0),
    {
        text::decimal_text(self.0)
    }
}

/// What a module says of itself when it joins the fabric.
#[derive(Debug, PartialEq, Eq)]
pub struct FabricModuleRegistration {
    pub plugin_id: PluginId,
    pub volt_id: VoltID,
    pub name: String,
    pub capabilities: Vec<RegisteredCapability>,
    pub state: FabricModuleState,
    pub health: FabricHealth,
}

/// What a [`FabricModuleRegistration`] says.
pub struct FabricModuleRegistrationView {
    pub plugin_id: PluginId,
    pub volt_id: VoltIDView,
    pub name: Seq<char>,
    pub capabilities: Seq<RegisteredCapabilityView>,
    pub state: FabricModuleState,
    pub health: FabricHealth,
}

impl View for FabricModuleRegistration {
    type V = FabricModuleRegistrationView;

    open spec fn view(&self) -> FabricModuleRegistrationView {
        FabricModuleRegistrationView {
            plugin_id: self.plugin_id,
            volt_id: self.volt_id@,
            name: self.name@,
            capabilities: RegisteredCapabilityView::each(self.capabilities@),
            state: self.state,
            health: self.health,
        }
    }
}

impl Clone for FabricModuleRegistration {
    fn clone(&self) -> (copy: Self)
        ensures
            copy@ == self@,
    {
        FabricModuleRegistration {
            plugin_id: self.plugin_id,
            volt_id: self.volt_id.clone(),
            name: self.name.clone(),
            capabilities: clone_capabilities(&self.capabilities),
            state: self.state,
            health: self.health,
        }
    }
}

impl FabricModuleRegistration {
    /// A starting module of unknown health that offers nothing yet.
    pub fn new<N: Into<String>>(plugin_id: PluginId, volt_id: VoltID, name: N) -> (registration:
        Self)
        ensures
            call_ensures(<N as Into<String>>::into, (name,), registration.name),
            registration@ == (FabricModuleRegistrationView {
                plugin_id,
                volt_id: volt_id@,
                name: registration.name@,
                capabilities: Seq::empty(),
                state: FabricModuleState::Starting,
                health: FabricHealth::Unknown,
            }),
    {
        let registration = FabricModuleRegistration {
            plugin_id,
            volt_id,
            name: name.into(),
            capabilities: Vec::new(),
            state: FabricModuleState::Starting,
            health: FabricHealth::Unknown,
        };
        assert(registration@.capabilities =~= Seq::empty());
        registration
    }

    /// Sets what the module offers.
    pub fn capabilities(self, capabilities: Vec<RegisteredCapability>) -> (registration: Self)
        ensures
            registration@ == (FabricModuleRegistrationView {
                capabilities: RegisteredCapabilityView::each(capabilities@),
                ..self@
            }),
    {
        FabricModuleRegistration { capabilities, ..self }
    }

    /// Sets where the module is in its life.
    pub fn state(self, state: FabricModuleState) -> (registration: Self)
        ensures
            registration@ == (FabricModuleRegistrationView { state, ..self@ }),
    {
        FabricModuleRegistration { state, ..self }
    }

    /// Sets how well the module is doing.
    pub fn health(self, health: FabricHealth) -> (registration: Self)
        ensures
            registration@ == (FabricModuleRegistrationView { health, ..self@ }),
    {
        FabricModuleRegistration { health, ..self }
    }
}

/// One thing that a module says of itself after it joined.
#[derive(Debug, PartialEq, Eq)]
pub enum FabricReport {
    State(FabricModuleState),
    Health(FabricHealth),
    Capabilities(Vec<RegisteredCapability>),
}

/// What a [`FabricReport`] says.
pub enum FabricReportView {
    State(FabricModuleState),
    Health(FabricHealth),
    Capabilities(Seq<RegisteredCapabilityView>),
}

impl View for FabricReport {
    type V = FabricReportView;

    open spec fn view(&self) -> FabricReportView {
        match *self {
            FabricReport::State(state) => FabricReportView::State(state),
            FabricReport::Health(health) => FabricReportView::Health(health),
            FabricReport::Capabilities(capabilities) => FabricReportView::Capabilities(
                RegisteredCapabilityView::each(capabilities@),
            ),
        }
    }
}

/// What became of a report.
#[derive(Debug, Clone, Copy, PartialEq, Eq, Structural)]
pub enum FabricReportOutcome {
    /// It was recorded.
    Applied,
    /// It was ignored: the plugin stands in the fabric under another registration.
    Stale,
    /// It was ignored: the plugin does not stand in the fabric.
    Unknown,
}

/// A module that can serve a request, with the capability it would serve it by.
#[derive(Debug, PartialEq, Eq)]
pub struct FabricCandidate {
    pub registration_id: FabricRegistrationId,
    pub plugin_id: PluginId,
    pub volt_id: VoltID,
    pub name: String,
    pub capability: RegisteredCapability,
    pub state: FabricModuleState,
    pub health: FabricHealth,
}

/// What a [`FabricCandidate`] says.
pub struct FabricCandidateView {
    pub registration_id: FabricRegistrationId,
    pub plugin_id: PluginId,
    pub volt_id: VoltIDView,
    pub name: Seq<char>,
    pub capability: RegisteredCapabilityView,
    pub state: FabricModuleState,
    pub health: FabricHealth,
}

impl View for FabricCandidate {
    type V = FabricCandidateView;

    open spec fn view(&self) -> FabricCandidateView {
        FabricCandidateView {
            registration_id: self.registration_id,
            plugin_id: self.plugin_id,
            volt_id: self.volt_id@,
            name: self.name@,
            capability: self.capability@,
            state: self.state,
            health: self.health,
        }
    }
}

impl Clone for FabricCandidate {
    fn clone(&self) -> (copy: Self)
        ensures
            copy@ == self@,
    {
        FabricCandidate {
            registration_id: self.registration_id,
            plugin_id: self.plugin_id,
            volt_id: self.volt_id.clone(),
            name: self.name.clone(),
            capability: self.capability.clone(),
            state: self.state,
            health: self.health,
        }
    }
}

impl FabricCandidateView {
    /// What each of a list of candidates says.
    pub open spec fn each(candidates: Seq<FabricCandidate>) -> Seq<FabricCandidateView> {
        Seq::new(candidates.len(), |i: int| candidates[i]@)
    }
}

/// Where a request goes: the selected candidate, and all candidates from the best down.
#[derive(Debug, PartialEq, Eq)]
pub struct FabricRoute {
    pub request: FabricRequest,
    pub selected: FabricCandidate,
    pub candidates: Vec<FabricCandidate>,
}

/// What a [`FabricRoute`] says.
pub struct FabricRouteView {
    pub request: FabricRequestView,
    pub selected: FabricCandidateView,
    pub candidates: Seq<FabricCandidateView>,
}

impl View for FabricRoute {
    type V = FabricRouteView;

    open spec fn view(&self) -> FabricRouteView {
        FabricRouteView {
            request: self.request@,
            selected: self.selected@,
            candidates: FabricCandidateView::each(self.candidates@),
        }
    }
}

impl Clone for FabricRoute {
    fn clone(&self) -> (copy: Self)
        ensures
            copy@ == self@,
    {
        let copy = FabricRoute {
            request: self.request.clone(),
            selected: self.selected.clone(),
            candidates: self.candidates.clone(),
        };
        assert(copy@.candidates =~= self@.candidates);
        copy
    }
}

impl FabricRouteView {
    /// What an optional route says.
    pub open spec fn of(route: Option<FabricRoute>) -> Option<FabricRouteView> {
        match route {
            Some(route) => Some(route@),
            None => None,
        }
    }
}

/// The modules of the fabric at one moment, by plugin number.
#[derive(Debug, PartialEq, Eq)]
pub struct FabricSnapshot {
    pub generation: u64,
    pub modules: Vec<FabricModuleSnapshot>,
}

/// What a [`FabricSnapshot`] says.
pub struct FabricSnapshotView {
    pub generation: u64,
    pub modules: Seq<FabricModuleSnapshotView>,
}

impl View for FabricSnapshot {
    type V = FabricSnapshotView;

    open spec fn view(&self) -> FabricSnapshotView {
        FabricSnapshotView {
            generation: self.generation,
            modules: FabricModuleSnapshotView::each(self.modules@),
        }
    }
}

impl Clone for FabricSnapshot {
    fn clone(&self) -> (copy: Self)
        ensures
            copy@ == self@,
    {
        let copy = FabricSnapshot { generation: self.generation, modules: self.modules.clone() };
        assert(copy@.modules =~= self@.modules);
        copy
    }
}

/// One module of the fabric at one moment.
#[derive(Debug, PartialEq, Eq)]
pub struct FabricModuleSnapshot {
    pub registration_id: FabricRegistrationId,
    pub plugin_id: PluginId,
    pub volt_id: VoltID,
    pub name: String,
    pub capabilities: Vec<RegisteredCapability>,
    pub state: FabricModuleState,
    pub health: FabricHealth,
}

/// What a [`FabricModuleSnapshot`] says.
pub struct FabricModuleSnapshotView {
    pub registration_id: FabricRegistrationId,
    pub plugin_id: PluginId,
    pub volt_id: VoltIDView,
    pub name: Seq<char>,
    pub capabilities: Seq<RegisteredCapabilityView>,
    pub state: FabricModuleState,
    pub health: FabricHealth,
}

impl View for FabricModuleSnapshot {
    type V = FabricModuleSnapshotView;

    open spec fn view(&self) -> FabricModuleSnapshotView {
        FabricModuleSnapshotView {
            registration_id: self.registration_id,
            plugin_id: self.plugin_id,
            volt_id: self.volt_id@,
            name: self.name@,
            capabilities: RegisteredCapabilityView::each(self.capabilities@),
            state: self.state,
            health: self.health,
        }
    }
}

impl Clone for FabricModuleSnapshot {
    fn clone(&self) -> (copy: Self)
        ensures
            copy@ == self@,
    {
        FabricModuleSnapshot {
            registration_id: self.registration_id,
            plugin_id: self.plugin_id,
            volt_id: self.volt_id.clone(),
            name: self.name.clone(),
            capabilities: clone_capabilities(&self.capabilities),
            state: self.state,
            health: self.health,
        }
    }
}

impl FabricModuleSnapshotView {
    /// What each of a list of module snapshots says.
    pub open spec fn each(modules: Seq<FabricModuleSnapshot>) -> Seq<FabricModuleSnapshotView> {
        Seq::new(modules.len(), |i: int| modules[i]@)
    }
}

/// Something that happened in the fabric.
#[derive(Debug, PartialEq, Eq)]
pub enum FabricEvent {
    Registered { registration_id: FabricRegistrationId, plugin_id: PluginId, name: String },
    Updated { registration_id: FabricRegistrationId, plugin_id: PluginId },
    Unregistered { registration_id: FabricRegistrationId, plugin_id: PluginId, name: String },
    RouteResolved { request: FabricRequest, selected: FabricCandidate },
    RouteMiss { request: FabricRequest },
}

/// What a [`FabricEvent`] says.
pub enum FabricEventView {
    Registered { registration_id: FabricRegistrationId, plugin_id: PluginId, name: Seq<char> },
    Updated { registration_id: FabricRegistrationId, plugin_id: PluginId },
    Unregistered { registration_id: FabricRegistrationId, plugin_id: PluginId, name: Seq<char> },
    RouteResolved { request: FabricRequestView, selected: FabricCandidateView },
    RouteMiss { request: FabricRequestView },
}

impl View for FabricEvent {
    type V = FabricEventView;

    open spec fn view(&self) -> FabricEventView {
        match *self {
            FabricEvent::Registered { registration_id, plugin_id, name } =>
                FabricEventView::Registered { registration_id, plugin_id, name: name@ },
            FabricEvent::Updated { registration_id, plugin_id } => FabricEventView::Updated {
                registration_id,
                plugin_id,
            },
            FabricEvent::Unregistered { registration_id, plugin_id, name } =>
                FabricEventView::Unregistered { registration_id, plugin_id, name: name@ },
            FabricEvent::RouteResolved { request, selected } => FabricEventView::RouteResolved {
                request: request@,
                selected: selected@,
            },
            FabricEvent::RouteMiss { request } => FabricEventView::RouteMiss { request: request@ },
        }
    }
}

impl Clone for FabricEvent {
    fn clone(&self) -> (copy: Self)
        ensures
            copy@ == self@,
    {
        match self {
            FabricEvent::Registered { registration_id, plugin_id, name } =>
                FabricEvent::Registered {
                    registration_id: *registration_id,
                    plugin_id: *plugin_id,
                    name: name.clone(),
                },
            FabricEvent::Updated { registration_id, plugin_id } => FabricEvent::Updated {
                registration_id: *registration_id,
                plugin_id: *plugin_id,
            },
            FabricEvent::Unregistered { registration_id, plugin_id, name } =>
                FabricEvent::Unregistered {
                    registration_id: *registration_id,
                    plugin_id: *plugin_id,
                    name: name.clone(),
                },
            FabricEvent::RouteResolved { request, selected } => FabricEvent::RouteResolved {
                request: request.clone(),
                selected: selected.clone(),
            },
            FabricEvent::RouteMiss { request } => FabricEvent::RouteMiss {
                request: request.clone(),
            },
        }
    }
}

impl FabricEventView {
    /// What each of a list of events says.
    pub open spec fn each(events: Seq<FabricEvent>) -> Seq<FabricEventView> {
        Seq::new(events.len(), |i: int| events[i]@)
    }
}

} // verus!

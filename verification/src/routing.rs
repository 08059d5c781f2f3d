//! How capabilities of one module and candidates of several are ordered for a request.

use crate::fabric_types::{
    FabricCandidate, FabricCandidateView, FabricCapabilityView, FabricRequest, FabricRequestView,
    RegisteredCapability,
};
use crate::text;
use core::cmp::Ordering;
use vstd::prelude::*;

verus! {

/// How good a candidate is for a request: health decides, then how closely the language
/// fits, then the priority.
#[derive(Debug, PartialEq, Eq, Ord, Structural)]
pub struct FabricCandidateScore {
    pub health: u8,
    pub specificity: u8,
    pub priority: i32,
}

impl Clone for FabricCandidateScore {
    fn clone(&self) -> (copy: Self)
        ensures
            copy == *self,
    {
        FabricCandidateScore {
            health: self.health,
            specificity: self.specificity,
            priority: self.priority,
        }
    }
}

impl FabricCandidateScore {
    /// The score is lower than the other: in the first part in which they differ.
    pub open spec fn lower_than(self, other: FabricCandidateScore) -> bool {
        if self.health != other.health {
            self.health < other.health
        } else if self.specificity != other.specificity {
            self.specificity < other.specificity
        } else {
            self.priority < other.priority
        }
    }
}

/// Compares two scores part by part.
fn compare_scores(left: &FabricCandidateScore, right: &FabricCandidateScore) -> (order: Ordering)
    ensures
        (order is Less) == left.lower_than(*right),
        (order is Greater) == right.lower_than(*left),
        (order is Equal) == (left == right),
{
    if left.health != right.health {
        return left.health.cmp(&right.health);
    }
    if left.specificity != right.specificity {
        return left.specificity.cmp(&right.specificity);
    }
    left.priority.cmp(&right.priority)
}

impl PartialOrd for FabricCandidateScore {
    fn partial_cmp(&self, other: &Self) -> (order: Option<Ordering>) {
        Some(compare_scores(self, other))
    }
}

impl vstd::std_specs::cmp::PartialOrdSpecImpl for FabricCandidateScore {
    open spec fn obeys_partial_cmp_spec() -> bool {
        true
    }

    open spec fn partial_cmp_spec(&self, other: &Self) -> Option<Ordering> {
        if self.lower_than(*other) {
            Some(Ordering::Less)
        } else if other.lower_than(*self) {
            Some(Ordering::Greater)
        } else {
            Some(Ordering::Equal)
        }
    }
}

/// Scores candidates for a request.
///
/// An implementation answers by the request and the candidate alone: asked twice about the
/// same two it gives the same score. The fabric holds its lock while it asks, so an
/// implementation does not call back into the fabric.
pub trait FabricRoutingPolicy: Send + Sync {
    /// The score of a candidate for a request. A verified implementation says what it is.
    open spec fn score(
        &self,
        request: FabricRequestView,
        candidate: FabricCandidateView,
    ) -> FabricCandidateScore {
        arbitrary()
    }

    fn rank(&self, request: &FabricRequest, candidate: &FabricCandidate) -> (score:
        FabricCandidateScore)
        ensures
            score == self.score(request@, candidate@),
    ;
}

/// Scores a candidate by its health and by the language and priority of its capability.
#[derive(Default)]
pub struct DefaultFabricRoutingPolicy;

impl FabricRoutingPolicy for DefaultFabricRoutingPolicy {
    open spec fn score(
        &self,
        request: FabricRequestView,
        candidate: FabricCandidateView,
    ) -> FabricCandidateScore {
        FabricCandidateScore {
            health: candidate.health.weight(),
            specificity: candidate.capability.capability.specificity(request),
            priority: candidate.capability.capability.priority,
        }
    }

    fn rank(&self, request: &FabricRequest, candidate: &FabricCandidate) -> (score:
        FabricCandidateScore) {
        FabricCandidateScore {
            health: candidate.health.routing_rank(),
            specificity: candidate.capability.capability.specificity(request),
            priority: candidate.capability.capability.priority,
        }
    }
}

impl FabricCapabilityView {
    /// The capability is a weaker answer to the request than the other. What decides is the
    /// first of these in which they differ: how closely the language fits, the priority,
    /// the language, the namespace, the operation.
    pub open spec fn weaker_than(
        self,
        other: FabricCapabilityView,
        request: FabricRequestView,
    ) -> bool {
        if self.specificity(request) != other.specificity(request) {
            self.specificity(request) < other.specificity(request)
        } else if self.priority != other.priority {
            self.priority < other.priority
        } else if self.language != other.language {
            text::optional_text_less(self.language, other.language)
        } else if self.namespace != other.namespace {
            text::text_less(self.namespace, other.namespace)
        } else {
            text::text_less(self.operation, other.operation)
        }
    }

    /// Of two capabilities exactly one of three things holds: the first is weaker, the second
    /// is weaker, or they are the same capability.
    pub proof fn order_is_total(
        left: FabricCapabilityView,
        right: FabricCapabilityView,
        request: FabricRequestView,
    )
        ensures
            !(left.weaker_than(right, request) && right.weaker_than(left, request)),
            left.weaker_than(right, request) || right.weaker_than(left, request) || left == right,
            left == right ==> !left.weaker_than(right, request),
    {
        text::optional_text_order_is_total(left.language, right.language);
        text::text_order_is_total(left.namespace, right.namespace);
        text::text_order_is_total(left.operation, right.operation);
    }

    /// A capability weaker than one that is weaker than a third is weaker than the third.
    pub proof fn order_is_transitive(
        a: FabricCapabilityView,
        b: FabricCapabilityView,
        c: FabricCapabilityView,
        request: FabricRequestView,
    )
        requires
            a.weaker_than(b, request),
            b.weaker_than(c, request),
        ensures
            a.weaker_than(c, request),
    {
        text::optional_text_order_is_total(a.language, b.language);
        text::optional_text_order_is_total(b.language, c.language);
        text::text_order_is_total(a.namespace, b.namespace);
        text::text_order_is_total(b.namespace, c.namespace);
        if text::optional_text_less(a.language, b.language) && text::optional_text_less(
            b.language,
            c.language,
        ) {
            text::optional_text_order_is_transitive(a.language, b.language, c.language);
            text::optional_text_order_is_total(a.language, c.language);
        }
        if text::text_less(a.namespace, b.namespace) && text::text_less(b.namespace, c.namespace) {
            text::text_order_is_transitive(a.namespace, b.namespace, c.namespace);
            text::text_order_is_total(a.namespace, c.namespace);
        }
        if text::text_less(a.operation, b.operation) && text::text_less(b.operation, c.operation) {
            text::text_order_is_transitive(a.operation, b.operation, c.operation);
        }
    }

    /// A capability no weaker than one that is no weaker than a third is no weaker than the
    /// third.
    pub proof fn strength_is_transitive(
        a: FabricCapabilityView,
        b: FabricCapabilityView,
        c: FabricCapabilityView,
        request: FabricRequestView,
    )
        requires
            !a.weaker_than(b, request),
            !b.weaker_than(c, request),
        ensures
            !a.weaker_than(c, request),
    {
        Self::order_is_total(a, b, request);
        Self::order_is_total(b, c, request);
        Self::order_is_total(a, c, request);
        if b.weaker_than(a, request) && c.weaker_than(b, request) {
            Self::order_is_transitive(c, b, a, request);
        }
    }
}

/// Compares two capabilities of a module as answers to a request.
pub fn compare_capabilities(
    left: &RegisteredCapability,
    right: &RegisteredCapability,
    request: &FabricRequest,
) -> (order: Ordering)
    ensures
        (order is Less) == left@.capability.weaker_than(right@.capability, request@),
        (order is Greater) == right@.capability.weaker_than(left@.capability, request@),
        (order is Equal) == (left@.capability == right@.capability),
{
    proof {
        FabricCapabilityView::order_is_total(left@.capability, right@.capability, request@);
    }
    let left_specificity: u8 = left.capability.specificity(request);
    let right_specificity: u8 = right.capability.specificity(request);
    if left_specificity != right_specificity {
        return left_specificity.cmp(&right_specificity);
    }
    if left.capability.priority != right.capability.priority {
        return left.capability.priority.cmp(&right.capability.priority);
    }
    match text::compare_optional_text(&left.capability.language, &right.capability.language) {
        Ordering::Equal => {},
        order => return order,
    }
    match text::compare_text(
        left.capability.namespace.as_str(),
        right.capability.namespace.as_str(),
    ) {
        Ordering::Equal => {},
        order => return order,
    }
    text::compare_text(left.capability.operation.as_str(), right.capability.operation.as_str())
}

impl FabricCandidateView {
    /// The candidate, with score `own`, goes ahead of the other, with score `others`: its
    /// score is higher, or the scores are the same and its plugin number is lower, or these
    /// are the same too and its registration number is lower.
    pub open spec fn ahead_by(
        self,
        own: FabricCandidateScore,
        other: FabricCandidateView,
        others: FabricCandidateScore,
    ) -> bool {
        if own != others {
            others.lower_than(own)
        } else if self.plugin_id != other.plugin_id {
            self.plugin_id.0 < other.plugin_id.0
        } else {
            self.registration_id.0 < other.registration_id.0
        }
    }

    /// The candidate goes ahead of the other when a policy ranks them for a request.
    pub open spec fn ahead_of<P: FabricRoutingPolicy + ?Sized>(
        self,
        other: FabricCandidateView,
        request: FabricRequestView,
        policy: &P,
    ) -> bool {
        self.ahead_by(policy.score(request, self), other, policy.score(request, other))
    }

    /// Of two candidates not both go ahead of the other, and one does unless they are the
    /// same registration of the same plugin and have the same score.
    pub proof fn order_is_total<P: FabricRoutingPolicy + ?Sized>(
        left: FabricCandidateView,
        right: FabricCandidateView,
        request: FabricRequestView,
        policy: &P,
    )
        ensures
            !(left.ahead_of(right, request, policy) && right.ahead_of(left, request, policy)),
            left.ahead_of(right, request, policy) || right.ahead_of(left, request, policy) || {
                &&& left.plugin_id == right.plugin_id
                &&& left.registration_id == right.registration_id
                &&& policy.score(request, left) == policy.score(request, right)
            },
            !left.ahead_of(left, request, policy),
    {
    }

    /// A candidate ahead of one that is ahead of a third is ahead of the third.
    pub proof fn order_is_transitive<P: FabricRoutingPolicy + ?Sized>(
        a: FabricCandidateView,
        b: FabricCandidateView,
        c: FabricCandidateView,
        request: FabricRequestView,
        policy: &P,
    )
        requires
            a.ahead_of(b, request, policy),
            b.ahead_of(c, request, policy),
        ensures
            a.ahead_of(c, request, policy),
    {
    }
}

/// Compares two candidates whose scores are known. `Less` is the better place.
pub fn compare_scored(
    left: &FabricCandidate,
    left_score: &FabricCandidateScore,
    right: &FabricCandidate,
    right_score: &FabricCandidateScore,
) -> (order: Ordering)
    ensures
        (order is Less) == left@.ahead_by(*left_score, right@, *right_score),
        (order is Greater) == right@.ahead_by(*right_score, left@, *left_score),
        (order is Equal) == {
            &&& left_score == right_score
            &&& left.plugin_id == right.plugin_id
            &&& left.registration_id == right.registration_id
        },
{
    match compare_scores(right_score, left_score) {
        Ordering::Equal => {},
        order => return order,
    }
    if left.plugin_id.0 != right.plugin_id.0 {
        return left.plugin_id.0.cmp(&right.plugin_id.0);
    }
    left.registration_id.0.cmp(&right.registration_id.0)
}

/// Compares two candidates for a request as a policy ranks them. `Less` is the better place.
pub fn compare_candidates<P: FabricRoutingPolicy + ?Sized>(
    left: &FabricCandidate,
    right: &FabricCandidate,
    request: &FabricRequest,
    routing_policy: &P,
) -> (order: Ordering)
    ensures
        (order is Less) == left@.ahead_of(right@, request@, routing_policy),
        (order is Greater) == right@.ahead_of(left@, request@, routing_policy),
        (order is Equal) == {
            &&& routing_policy.score(request@, left@) == routing_policy.score(request@, right@)
            &&& left.plugin_id == right.plugin_id
            &&& left.registration_id == right.registration_id
        },
{
    let right_score = routing_policy.rank(request, right);
    let left_score = routing_policy.rank(request, left);
    compare_scored(left, &left_score, right, &right_score)
}

} // verus!

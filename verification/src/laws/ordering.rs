//! What fits, what is stronger and what goes first, over the fields of what is compared.

use crate::fabric_types::{
    FabricCandidate, FabricCandidateView, FabricCapability, FabricCapabilityView, FabricHealth,
    FabricModuleState, FabricRegistrationId, FabricRequest, FabricRequestView,
    RegisteredCapability,
};
use crate::model::FabricModuleView;
use crate::routing::{
    compare_candidates, compare_capabilities, compare_scored, DefaultFabricRoutingPolicy,
    FabricCandidateScore, FabricRoutingPolicy,
};
use crate::text;
use core::cmp::Ordering;
use vstd::prelude::*;

verus! {

// Text.

/// Of two rows of bytes the first comes before the second exactly when there is a place up to
/// which they agree and at which the first has ended, or holds the smaller byte.
pub proof fn bytes_are_ordered_where_they_first_differ(left: Seq<u8>, right: Seq<u8>)
    ensures
        text::bytes_less(left, right) <==> exists|i: int|
            0 <= i <= left.len() && i < right.len() && #[trigger] left.take(i) == right.take(i) && (
            i == left.len() || left[i] < right[i]),
    decreases left.len(),
{
    if right.len() > 0 && left.len() == 0 {
        assert(left.take(0) =~= right.take(0));
    }
    if right.len() > 0 && left.len() > 0 {
        let l = left.drop_first();
        let r = right.drop_first();
        if left[0] == right[0] {
            bytes_are_ordered_where_they_first_differ(l, r);
            if text::bytes_less(l, r) {
                let i = choose|i: int|
                    0 <= i <= l.len() && i < r.len() && #[trigger] l.take(i) == r.take(i) && (i
                        == l.len() || l[i] < r[i]);
                assert forall|k: int| 0 <= k < i + 1 implies left[k] == right[k] by {
                    if k > 0 {
                        assert(l.take(i)[k - 1] == r.take(i)[k - 1]);
                    }
                }
                assert(left.take(i + 1) =~= right.take(i + 1));
            }
            if exists|i: int|
                0 <= i <= left.len() && i < right.len() && #[trigger] left.take(i) == right.take(i)
                    && (i == left.len() || left[i] < right[i]) {
                let i = choose|i: int|
                    0 <= i <= left.len() && i < right.len() && #[trigger] left.take(i)
                        == right.take(i) && (i == left.len() || left[i] < right[i]);
                assert forall|k: int| 0 <= k < i - 1 implies l[k] == r[k] by {
                    assert(left.take(i)[k + 1] == right.take(i)[k + 1]);
                }
                assert(l.take(i - 1) =~= r.take(i - 1));
            }
        } else {
            if left[0] < right[0] {
                assert(left.take(0) =~= right.take(0));
            }
            assert forall|i: int|
                0 < i <= left.len() && i < right.len() implies #[trigger] left.take(i)
                != right.take(i) by {
                assert(left.take(i)[0] != right.take(i)[0]);
            }
        }
    }
}

/// Texts are ordered as the bytes that encode them.
pub proof fn texts_are_ordered_by_their_bytes(left: Seq<char>, right: Seq<char>)
    ensures
        ({
            let l = vstd::utf8::encode_utf8(left);
            let r = vstd::utf8::encode_utf8(right);
            text::text_less(left, right) <==> exists|i: int|
                0 <= i <= l.len() && i < r.len() && #[trigger] l.take(i) == r.take(i) && (i
                    == l.len() || l[i] < r[i])
        }),
{
    bytes_are_ordered_where_they_first_differ(
        vstd::utf8::encode_utf8(left),
        vstd::utf8::encode_utf8(right),
    );
}

/// Absence comes before every text and nothing comes before absence; texts that are there are
/// ordered among themselves as without the option.
pub proof fn absence_comes_first(left: Option<Seq<char>>, right: Option<Seq<char>>)
    ensures
        right is None ==> !text::optional_text_less(left, right),
        left is None && right is Some ==> text::optional_text_less(left, right),
        left is Some && right is Some ==> text::optional_text_less(left, right)
            == text::text_less(left.unwrap(), right.unwrap()),
{
}

/// Comparing two texts says which comes first by the bytes that encode them, and that they are
/// equal only when they are the same.
pub proof fn comparing_texts_goes_by_their_bytes(left: &str, right: &str, order: Ordering)
    requires
        call_ensures(text::compare_text, (left, right), order),
    ensures
        order is Less <==> text::text_less(left@, right@),
        order is Greater <==> text::text_less(right@, left@),
        order is Equal <==> left@ == right@,
{
}

/// Comparing two optional strings puts absence first.
pub proof fn comparing_optional_texts_puts_absence_first(
    left: &Option<String>,
    right: &Option<String>,
    order: Ordering,
)
    requires
        call_ensures(text::compare_optional_text, (left, right), order),
    ensures
        match (*left, *right) {
            (None, None) => order is Equal,
            (None, Some(_)) => order is Less,
            (Some(_), None) => order is Greater,
            (Some(l), Some(r)) => {
                &&& order is Less <==> text::text_less(l@, r@)
                &&& order is Greater <==> text::text_less(r@, l@)
                &&& order is Equal <==> l@ == r@
            },
        },
{
}

/// The number that a row of decimal digits reads as.
pub open spec fn number_read(digits: Seq<char>) -> int
    decreases digits.len(),
{
    if digits.len() == 0 {
        0
    } else {
        number_read(digits.drop_last()) * 10 + (digits.last() as int - '0' as int)
    }
}

/// A number written in decimal is made of digits, reads back as itself, and starts with a zero
/// only when it is zero.
pub proof fn decimals_read_back(n: u64)
    ensures
        text::decimal(n).len() > 0,
        forall|i: int|
            0 <= i < text::decimal(n).len() ==> '0' as int <= #[trigger] text::decimal(n)[i] as int
                && text::decimal(n)[i] as int <= '9' as int,
        number_read(text::decimal(n)) == n,
        text::decimal(n)[0] == '0' ==> n == 0 && text::decimal(n).len() == 1,
    decreases n,
{
    if n < 10 {
        assert(text::decimal(n).drop_last() =~= Seq::empty());
        assert(number_read(text::decimal(n).drop_last()) == 0);
    } else {
        decimals_read_back(n / 10);
        assert(text::decimal(n).drop_last() =~= text::decimal(n / 10));
        assert(text::decimal(n).last() == text::digit(n % 10));
        assert(text::decimal(n)[0] == text::decimal(n / 10)[0]);
    }
}

/// What is written for a number in decimal reads back as the number.
pub proof fn written_decimals_read_back(n: u64, digits: String)
    requires
        call_ensures(text::decimal_text, (n,), digits),
    ensures
        number_read(digits@) == n,
        digits@ == text::decimal(n),
{
    decimals_read_back(n);
}

/// The text of a registration number reads back as the number.
pub proof fn registration_numbers_read_back(id: &FabricRegistrationId, digits: String)
    requires
        call_ensures(FabricRegistrationId::to_string, (id,), digits),
    ensures
        number_read(digits@) == id.0,
        digits@.len() > 0,
        forall|i: int|
            0 <= i < digits@.len() ==> '0' as int <= #[trigger] digits@[i] as int
                && digits@[i] as int <= '9' as int,
        digits@[0] == '0' ==> id.0 == 0 && digits@.len() == 1,
{
    decimals_read_back(id.0);
}

// Fit.

/// A capability answers requests for its own operation of its own namespace alone; of those a
/// generic one and a wildcard answer all, and one for a language answers that language.
pub proof fn capabilities_answer_by_operation_and_language(
    capability: FabricCapabilityView,
    request: FabricRequestView,
)
    ensures
        capability.matches(request) ==> capability.namespace == request.namespace
            && capability.operation == request.operation,
        capability.namespace == request.namespace && capability.operation == request.operation
            ==> match capability.language {
            None => capability.matches(request),
            Some(own) => capability.matches(request) <==> own == seq!['*'] || request.language
                == Some(own),
        },
{
}

/// The closest fit is the request's own language, then the wildcard, then no language; another
/// language does not fit. Neither names nor priorities play a part.
pub proof fn fit_grades_the_language_alone(
    capability: FabricCapabilityView,
    request: FabricRequestView,
)
    ensures
        match (capability.language, request.language) {
            (None, _) => capability.specificity(request) == 1,
            (Some(own), Some(asked)) => {
                &&& own == asked ==> capability.specificity(request) == 3
                &&& own != asked && own == seq!['*'] ==> capability.specificity(request) == 2
                &&& own != asked && own != seq!['*'] ==> capability.specificity(request) == 0
            },
            (Some(own), None) => {
                &&& own == seq!['*'] ==> capability.specificity(request) == 2
                &&& own != seq!['*'] ==> capability.specificity(request) == 0
            },
        },
{
}

/// Whether a capability answers a request and how closely it fits agree: it answers exactly
/// when it is the same operation of the same namespace and fits at all.
pub proof fn answering_and_fitting_agree(
    capability: &FabricCapability,
    request: &FabricRequest,
    matching: bool,
    fit: u8,
)
    requires
        call_ensures(FabricCapability::matches, (capability, request), matching),
        call_ensures(FabricCapability::specificity, (capability, request), fit),
    ensures
        matching <==> {
            &&& capability.namespace@ == request.namespace@
            &&& capability.operation@ == request.operation@
            &&& fit > 0
        },
        match (capability.language, request.language) {
            (None, _) => fit == 1,
            (Some(own), Some(asked)) => {
                &&& own@ == asked@ ==> fit == 3
                &&& own@ != asked@ && own@ == seq!['*'] ==> fit == 2
                &&& own@ != asked@ && own@ != seq!['*'] ==> fit == 0
            },
            (Some(own), None) => {
                &&& own@ == seq!['*'] ==> fit == 2
                &&& own@ != seq!['*'] ==> fit == 0
            },
        },
{
}

/// Only a ready module takes requests.
pub proof fn only_ready_states_take_requests(state: FabricModuleState, routable: bool)
    requires
        call_ensures(FabricModuleState::is_routable, (state,), routable),
    ensures
        match state {
            FabricModuleState::Ready => routable,
            FabricModuleState::Starting => !routable,
            FabricModuleState::Suspended => !routable,
            FabricModuleState::Stopping => !routable,
            FabricModuleState::Stopped => !routable,
            FabricModuleState::Failed => !routable,
        },
{
}

/// Every health but the unhealthy takes requests, and exactly those weigh anything. The
/// healthy weigh most, then the unknown, then the degraded.
pub proof fn the_healthier_weigh_more(health: FabricHealth, routable: bool, rank: u8)
    requires
        call_ensures(FabricHealth::is_routable, (health,), routable),
        call_ensures(FabricHealth::routing_rank, (health,), rank),
    ensures
        routable <==> rank > 0,
        rank == health.weight(),
        match health {
            FabricHealth::Healthy => rank == 3,
            FabricHealth::Unknown => rank == 2,
            FabricHealth::Degraded => rank == 1,
            FabricHealth::Unhealthy => rank == 0,
        },
{
}

/// A health weighs the same wherever it is weighed.
pub proof fn weights_of_health()
    ensures
        FabricHealth::Healthy.weight() == 3,
        FabricHealth::Unknown.weight() == 2,
        FabricHealth::Degraded.weight() == 1,
        FabricHealth::Unhealthy.weight() == 0,
{
}

// Strength of capabilities.

/// A capability is weaker than another when it fits less closely, whatever the priorities; of
/// two that fit equally the one of lower priority is weaker; of two alike in both it is the
/// one whose language, else whose namespace, else whose operation comes first.
pub proof fn fit_then_priority_then_names_decide(
    left: FabricCapabilityView,
    right: FabricCapabilityView,
    request: FabricRequestView,
)
    ensures
        left.specificity(request) < right.specificity(request) ==> left.weaker_than(right, request),
        left.specificity(request) > right.specificity(request) ==> !left.weaker_than(
            right,
            request,
        ),
        left.specificity(request) == right.specificity(request) ==> {
            &&& left.priority < right.priority ==> left.weaker_than(right, request)
            &&& left.priority > right.priority ==> !left.weaker_than(right, request)
            &&& left.priority == right.priority ==> {
                &&& text::optional_text_less(left.language, right.language) ==> left.weaker_than(
                    right,
                    request,
                )
                &&& text::optional_text_less(right.language, left.language) ==> !left.weaker_than(
                    right,
                    request,
                )
                &&& left.language == right.language ==> {
                    &&& text::text_less(left.namespace, right.namespace) ==> left.weaker_than(
                        right,
                        request,
                    )
                    &&& text::text_less(right.namespace, left.namespace) ==> !left.weaker_than(
                        right,
                        request,
                    )
                    &&& left.namespace == right.namespace ==> left.weaker_than(right, request)
                        == text::text_less(left.operation, right.operation)
                }
            }
        },
{
    text::optional_text_order_is_total(left.language, right.language);
    text::text_order_is_total(left.namespace, right.namespace);
}

/// Comparing two capabilities looks at how closely each fits before it looks at priorities,
/// and at priorities before it looks at names.
pub proof fn comparing_capabilities_looks_at_fit_first(
    left: &RegisteredCapability,
    right: &RegisteredCapability,
    request: &FabricRequest,
    order: Ordering,
    left_fit: u8,
    right_fit: u8,
)
    requires
        call_ensures(compare_capabilities, (left, right, request), order),
        call_ensures(FabricCapability::specificity, (&left.capability, request), left_fit),
        call_ensures(FabricCapability::specificity, (&right.capability, request), right_fit),
    ensures
        left_fit < right_fit ==> order is Less,
        left_fit > right_fit ==> order is Greater,
        left_fit == right_fit ==> {
            &&& left.capability.priority < right.capability.priority ==> order is Less
            &&& left.capability.priority > right.capability.priority ==> order is Greater
            &&& left.capability.priority == right.capability.priority ==> {
                let l = left.capability@;
                let r = right.capability@;
                &&& text::optional_text_less(l.language, r.language) ==> order is Less
                &&& text::optional_text_less(r.language, l.language) ==> order is Greater
                &&& l.language == r.language ==> {
                    &&& text::text_less(l.namespace, r.namespace) ==> order is Less
                    &&& text::text_less(r.namespace, l.namespace) ==> order is Greater
                    &&& l.namespace == r.namespace ==> {
                        &&& order is Less <==> text::text_less(l.operation, r.operation)
                        &&& order is Greater <==> text::text_less(r.operation, l.operation)
                        &&& order is Equal <==> l.operation == r.operation
                    }
                }
            }
        },
{
    let l = left.capability@;
    let r = right.capability@;
    fit_then_priority_then_names_decide(l, r, request@);
    fit_then_priority_then_names_decide(r, l, request@);
    text::optional_text_order_is_total(l.language, r.language);
    text::text_order_is_total(l.namespace, r.namespace);
    text::text_order_is_total(l.operation, r.operation);
}

/// A module answers a request as soon as one of its capabilities does, and then with the one
/// that fits most closely and, of those that fit equally, has the highest priority: no other
/// that answers fits more closely, none that fits as closely has a higher priority, and one
/// alike in both is the same.
pub proof fn modules_answer_with_the_closest_then_most_urgent(
    module: FabricModuleView,
    request: FabricRequestView,
)
    ensures
        module.best_capability(request) is Some <==> exists|i: int|
            0 <= i < module.capabilities.len() && (
            #[trigger] module.capabilities[i]).capability.matches(request),
        module.best_capability(request) matches Some(best) ==> {
            &&& exists|i: int|
                0 <= i < module.capabilities.len() && #[trigger] module.capabilities[i] == best
            &&& best.capability.matches(request)
            &&& forall|i: int|
                0 <= i < module.capabilities.len() && (
                #[trigger] module.capabilities[i]).capability.matches(request) ==> {
                    let other = module.capabilities[i].capability;
                    let fit = best.capability.specificity(request);
                    &&& other.specificity(request) <= fit
                    &&& other.specificity(request) == fit ==> other.priority
                        <= best.capability.priority
                    &&& other.specificity(request) == fit && other.priority
                        == best.capability.priority ==> other == best.capability
                }
        },
{
    crate::laws::best_capability_is_best(module, request);
    if module.best_capability(request) is Some {
        let k = choose|i: int| module.answers_at(request, i);
        assert(module.capabilities[k].capability.matches(request));
        let best = module.best_capability(request).unwrap();
        assert forall|i: int|
            0 <= i < module.capabilities.len() && (
            #[trigger] module.capabilities[i]).capability.matches(request) implies {
            let other = module.capabilities[i].capability;
            let fit = best.capability.specificity(request);
            &&& other.specificity(request) <= fit
            &&& other.specificity(request) == fit ==> other.priority <= best.capability.priority
            &&& other.specificity(request) == fit && other.priority == best.capability.priority
                ==> other == best.capability
        } by {
            assert(module.answers_at(request, i));
            let other = module.capabilities[i].capability;
            fit_then_priority_then_names_decide(best.capability, other, request);
            fit_grades_the_language_alone(other, request);
            fit_grades_the_language_alone(best.capability, request);
        }
    }
    if exists|i: int|
        0 <= i < module.capabilities.len() && (
        #[trigger] module.capabilities[i]).capability.matches(request) {
        let k = choose|i: int|
            0 <= i < module.capabilities.len() && (
            #[trigger] module.capabilities[i]).capability.matches(request);
        assert(module.answers_at(request, k));
    }
}

// Order of candidates.

/// Of two scores the one of lower health is lower; of two alike in health the one that fits
/// less closely; of two alike in both the one of lower priority; a score is not below itself.
pub proof fn scores_go_by_health_then_fit_then_priority(
    left: FabricCandidateScore,
    right: FabricCandidateScore,
)
    ensures
        left.health < right.health ==> left.lower_than(right),
        left.health > right.health ==> !left.lower_than(right),
        left.health == right.health ==> {
            &&& left.specificity < right.specificity ==> left.lower_than(right)
            &&& left.specificity > right.specificity ==> !left.lower_than(right)
            &&& left.specificity == right.specificity ==> left.lower_than(right) == (left.priority
                < right.priority)
        },
{
}

/// Comparing two scores looks at health first, then at fit, then at priority.
pub proof fn comparing_scores_looks_at_health_first(
    left: &FabricCandidateScore,
    right: &FabricCandidateScore,
    order: Option<Ordering>,
)
    requires
        call_ensures(FabricCandidateScore::partial_cmp, (left, right), order),
    ensures
        order is Some,
        left.health < right.health ==> order == Some(Ordering::Less),
        left.health > right.health ==> order == Some(Ordering::Greater),
        left.health == right.health ==> {
            &&& left.specificity < right.specificity ==> order == Some(Ordering::Less)
            &&& left.specificity > right.specificity ==> order == Some(Ordering::Greater)
            &&& left.specificity == right.specificity ==> {
                &&& left.priority < right.priority ==> order == Some(Ordering::Less)
                &&& left.priority > right.priority ==> order == Some(Ordering::Greater)
                &&& left.priority == right.priority ==> order == Some(Ordering::Equal)
            }
        },
{
}

/// A candidate of higher score goes ahead; of two with the same score the one of lower plugin
/// number; of two of one plugin the one of lower registration number.
pub proof fn candidates_go_by_score_then_number(
    left: FabricCandidateView,
    left_score: FabricCandidateScore,
    right: FabricCandidateView,
    right_score: FabricCandidateScore,
)
    ensures
        left_score.health > right_score.health ==> left.ahead_by(left_score, right, right_score),
        left_score.health < right_score.health ==> !left.ahead_by(left_score, right, right_score),
        left_score.health == right_score.health ==> {
            &&& left_score.specificity > right_score.specificity ==> left.ahead_by(
                left_score,
                right,
                right_score,
            )
            &&& left_score.specificity < right_score.specificity ==> !left.ahead_by(
                left_score,
                right,
                right_score,
            )
            &&& left_score.specificity == right_score.specificity ==> {
                &&& left_score.priority > right_score.priority ==> left.ahead_by(
                    left_score,
                    right,
                    right_score,
                )
                &&& left_score.priority < right_score.priority ==> !left.ahead_by(
                    left_score,
                    right,
                    right_score,
                )
                &&& left_score.priority == right_score.priority ==> {
                    &&& left.plugin_id.0 < right.plugin_id.0 ==> left.ahead_by(
                        left_score,
                        right,
                        right_score,
                    )
                    &&& left.plugin_id.0 > right.plugin_id.0 ==> !left.ahead_by(
                        left_score,
                        right,
                        right_score,
                    )
                    &&& left.plugin_id.0 == right.plugin_id.0 ==> left.ahead_by(
                        left_score,
                        right,
                        right_score,
                    ) == (left.registration_id.0 < right.registration_id.0)
                }
            }
        },
{
}

/// Under any policy a candidate goes ahead by the scores that the policy gives the two.
pub proof fn policies_order_by_their_scores<P: FabricRoutingPolicy + ?Sized>(
    left: FabricCandidateView,
    right: FabricCandidateView,
    request: FabricRequestView,
    policy: &P,
)
    ensures
        left.ahead_of(right, request, policy) == left.ahead_by(
            policy.score(request, left),
            right,
            policy.score(request, right),
        ),
{
}

/// A policy that is asked twice about requests and candidates that say the same gives the same
/// score, which is the one that its candidates are ordered by.
pub proof fn policies_answer_alike<P: FabricRoutingPolicy + ?Sized>(
    policy: &P,
    request: &FabricRequest,
    candidate: &FabricCandidate,
    score: FabricCandidateScore,
    same_request: &FabricRequest,
    same_candidate: &FabricCandidate,
    again: FabricCandidateScore,
)
    requires
        request@ == same_request@,
        candidate@ == same_candidate@,
        call_ensures(
            <P as FabricRoutingPolicy>::rank,
            (policy, request, candidate),
            score,
        ),
        call_ensures(
            <P as FabricRoutingPolicy>::rank,
            (policy, same_request, same_candidate),
            again,
        ),
    ensures
        score == again,
        score == policy.score(request@, candidate@),
{
}

/// Comparing two candidates whose scores are known gives `Less` to the one of higher score,
/// else of lower plugin number, else of lower registration number.
pub proof fn comparing_scored_candidates_puts_the_higher_first(
    left: &FabricCandidate,
    left_score: &FabricCandidateScore,
    right: &FabricCandidate,
    right_score: &FabricCandidateScore,
    order: Ordering,
)
    requires
        call_ensures(compare_scored, (left, left_score, right, right_score), order),
    ensures
        right_score.lower_than(*left_score) ==> order is Less,
        left_score.lower_than(*right_score) ==> order is Greater,
        !left_score.lower_than(*right_score) && !right_score.lower_than(*left_score) ==> {
            &&& left.plugin_id.0 < right.plugin_id.0 ==> order is Less
            &&& left.plugin_id.0 > right.plugin_id.0 ==> order is Greater
            &&& left.plugin_id.0 == right.plugin_id.0 ==> {
                &&& order is Less <==> left.registration_id.0 < right.registration_id.0
                &&& order is Greater <==> left.registration_id.0 > right.registration_id.0
            }
        },
{
    scores_go_by_health_then_fit_then_priority(*left_score, *right_score);
    scores_go_by_health_then_fit_then_priority(*right_score, *left_score);
}

/// Comparing two candidates is comparing them by the scores that the policy gives when asked.
pub proof fn comparing_candidates_asks_the_policy<P: FabricRoutingPolicy + ?Sized>(
    left: &FabricCandidate,
    right: &FabricCandidate,
    request: &FabricRequest,
    policy: &P,
    order: Ordering,
    scored: Ordering,
)
    requires
        call_ensures(compare_candidates::<P>, (left, right, request, policy), order),
        call_ensures(
            compare_scored,
            (
                left,
                &policy.score(request@, left@),
                right,
                &policy.score(request@, right@),
            ),
            scored,
        ),
    ensures
        order == scored,
{
}

/// The default policy scores a candidate by the weight of its health, and by the fit and the
/// priority of its capability.
pub proof fn the_default_policy_scores_health_fit_and_priority(
    policy: &DefaultFabricRoutingPolicy,
    request: FabricRequestView,
    candidate: FabricCandidateView,
)
    ensures
        policy.score(request, candidate).health == match candidate.health {
            FabricHealth::Healthy => 3u8,
            FabricHealth::Unknown => 2u8,
            FabricHealth::Degraded => 1u8,
            FabricHealth::Unhealthy => 0u8,
        },
        policy.score(request, candidate).specificity == candidate.capability.capability.specificity(
            request,
        ),
        policy.score(request, candidate).priority == candidate.capability.capability.priority,
{
}

/// What the default policy answers about a candidate is what the candidate's health and its
/// capability answer about themselves.
pub proof fn the_default_policy_asks_the_candidate(
    policy: &DefaultFabricRoutingPolicy,
    request: &FabricRequest,
    candidate: &FabricCandidate,
    score: FabricCandidateScore,
    rank: u8,
    fit: u8,
)
    requires
        call_ensures(
            <DefaultFabricRoutingPolicy as FabricRoutingPolicy>::rank,
            (policy, request, candidate),
            score,
        ),
        call_ensures(FabricHealth::routing_rank, (candidate.health,), rank),
        call_ensures(
            FabricCapability::specificity,
            (&candidate.capability.capability, request),
            fit,
        ),
    ensures
        score.health == rank,
        score.specificity == fit,
        score.priority == candidate.capability.capability.priority,
{
}

} // verus!

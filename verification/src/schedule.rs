//! What the service answers when many calls are in flight at once.
//!
//! Handlers run as tasks of their own and finish in no fixed order, but
//! each one touches the server only while it holds the server's guard. So
//! every execution reaches the server as some sequence of requests, one
//! after the other. The functions here describe such a sequence, and the
//! lemmas hold for every sequence, that is, for every order in which the
//! tasks may get their turn.

use crate::service::{greeting, response_to, responses_after, RequestView, ResponseView};
use vstd::prelude::*;

verus! {

/// The number of greetings answered once a server that had answered
/// `responses` of them has served `requests`, one after the other.
pub open spec fn responses_after_all(responses: nat, requests: Seq<RequestView>) -> nat
    decreases requests.len(),
{
    if requests.len() == 0 {
        responses
    } else {
        responses_after(responses_after_all(responses, requests.drop_last()), requests.last())
    }
}

/// How many of `requests` are calls of `hello`.
pub open spec fn greetings(requests: Seq<RequestView>) -> nat
    decreases requests.len(),
{
    if requests.len() == 0 {
        0
    } else {
        greetings(requests.drop_last()) + if requests.last() is Hello {
            1nat
        } else {
            0nat
        }
    }
}

/// The response to the request at `position` when a server that had
/// answered `responses` greetings serves `requests`, one after the other.
pub open spec fn response_at(responses: nat, requests: Seq<RequestView>, position: int) -> ResponseView
    recommends
        0 <= position < requests.len(),
{
    response_to(responses_after_all(responses, requests.take(position)), requests[position])
}

/// The count grows by exactly one for each call of `hello` that has been
/// served, and by nothing else.
pub proof fn lemma_count_is_greetings_served(responses: nat, requests: Seq<RequestView>)
    ensures
        responses_after_all(responses, requests) == responses + greetings(requests),
    decreases requests.len(),
{
    if requests.len() > 0 {
        lemma_count_is_greetings_served(responses, requests.drop_last());
    }
}

/// After any run of calls on a new server, in whatever order they were
/// served, a call of `amount_responses` returns the number of calls of
/// `hello` among them.
pub proof fn lemma_query_counts_completed_greetings(requests: Seq<RequestView>)
    ensures
        response_to(responses_after_all(0, requests), RequestView::AmountResponses)
            == ResponseView::AmountResponses(greetings(requests)),
{
    lemma_count_is_greetings_served(0, requests);
}

/// The count does not depend on the order in which the calls were served:
/// two runs of the same calls leave the same count.
pub proof fn lemma_count_ignores_order(
    responses: nat,
    first: Seq<RequestView>,
    second: Seq<RequestView>,
)
    requires
        first.to_multiset() == second.to_multiset(),
    ensures
        responses_after_all(responses, first) == responses_after_all(responses, second),
{
    lemma_count_is_greetings_served(responses, first);
    lemma_count_is_greetings_served(responses, second);
    lemma_greetings_of_multiset(first);
    lemma_greetings_of_multiset(second);
}

/// The calls of `hello` in a sequence are those of its multiset.
proof fn lemma_greetings_of_multiset(requests: Seq<RequestView>)
    ensures
        greetings(requests) == requests.to_multiset().filter(|r: RequestView| r is Hello).len(),
    decreases requests.len(),
{
    broadcast use vstd::seq_lib::group_to_multiset_ensures;

    let is_hello = |r: RequestView| r is Hello;
    if requests.len() == 0 {
        assert(requests.to_multiset() =~= vstd::multiset::Multiset::empty());
        assert(requests.to_multiset().filter(is_hello) =~= vstd::multiset::Multiset::empty());
    } else {
        let front = requests.drop_last();
        let last = requests.last();
        lemma_greetings_of_multiset(front);
        assert(requests =~= front.push(last));
        assert(requests.to_multiset() =~= front.to_multiset().insert(last));
        if last is Hello {
            assert(requests.to_multiset().filter(is_hello) =~= front.to_multiset().filter(
                is_hello,
            ).insert(last));
        } else {
            assert(requests.to_multiset().filter(is_hello) =~= front.to_multiset().filter(
                is_hello,
            ));
        }
    }
}

/// No cross-talk: the response to a call of `hello` is the greeting of that
/// call's own argument, whatever else is served on the same server and
/// wherever in the run the call gets its turn.
pub proof fn lemma_greeting_answers_its_own_call(
    responses: nat,
    requests: Seq<RequestView>,
    position: int,
)
    requires
        0 <= position < requests.len(),
        requests[position] is Hello,
    ensures
        response_at(responses, requests, position) == ResponseView::Hello(
            greeting(requests[position]->who),
        ),
{
}

/// The response to a call of `amount_responses` is the number of greetings
/// that were answered before the call got its turn.
pub proof fn lemma_query_answers_with_count_so_far(
    responses: nat,
    requests: Seq<RequestView>,
    position: int,
)
    requires
        0 <= position < requests.len(),
        requests[position] is AmountResponses,
    ensures
        response_at(responses, requests, position) == ResponseView::AmountResponses(
            responses + greetings(requests.take(position)),
        ),
{
    lemma_count_is_greetings_served(responses, requests.take(position));
}

} // verus!

//! The caller's side of the service: a call becomes a request, and the
//! response that comes back becomes the call's result.

use crate::service::{
    greeting, response_to, HelloWorldRequest, HelloWorldResponse, RequestView, ResponseView,
};
use vstd::prelude::*;

verus! {

/// The result of a call of `hello` as read from `response`: the text of a
/// response of `hello`, nothing from any other response.
pub open spec fn hello_result_of(response: ResponseView) -> Option<Seq<char>> {
    match response {
        ResponseView::Hello(text) => Some(text),
        ResponseView::AmountResponses(_) => None,
    }
}

/// The result of a call of `amount_responses` as read from `response`: the
/// count of a response of `amount_responses`, nothing from any other
/// response.
pub open spec fn amount_responses_result_of(response: ResponseView) -> Option<nat> {
    match response {
        ResponseView::AmountResponses(count) => Some(count),
        ResponseView::Hello(_) => None,
    }
}

/// A call of `hello` that reaches a server and whose response comes back
/// results in the greeting of the call's own argument, whatever the server
/// has answered before.
pub proof fn lemma_hello_call_gets_its_greeting(responses: nat, who: Seq<char>)
    ensures
        hello_result_of(response_to(responses, RequestView::Hello { who })) == Some(greeting(who)),
{
}

/// A call of `amount_responses` that reaches a server and whose response
/// comes back results in the server's count at that moment.
pub proof fn lemma_amount_call_gets_the_count(responses: nat)
    ensures
        amount_responses_result_of(response_to(responses, RequestView::AmountResponses)) == Some(
            responses,
        ),
{
}

/// The stub through which a caller speaks to a [`crate::service::HelloWorld`]
/// server. It holds nothing: each call is framed from its arguments alone,
/// and each result is read from its own response alone.
#[derive(Clone, Copy, Debug)]
pub struct HelloClient {}

impl HelloClient {
    /// A stub.
    pub fn new() -> (client: Self)
        ensures
            client == (HelloClient {  }),
    {
        HelloClient {  }
    }

    /// The request that stands for the call `hello(who)`.
    pub fn hello(&self, who: String) -> (request: HelloWorldRequest)
        ensures
            request@ == (RequestView::Hello { who: who@ }),
    {
        HelloWorldRequest::Hello { who }
    }

    /// The request that stands for the call `amount_responses()`.
    pub fn amount_responses(&self) -> (request: HelloWorldRequest)
        ensures
            request@ == RequestView::AmountResponses,
    {
        HelloWorldRequest::AmountResponses {  }
    }

    /// The result of a call of `hello`, read from the response to it.
    /// `None` when the response is that of another method.
    pub fn hello_result(&self, response: HelloWorldResponse) -> (reply: Option<String>)
        ensures
            reply is Some == hello_result_of(response@) is Some,
            reply is Some ==> Some(reply->0@) == hello_result_of(response@),
    {
        match response {
            HelloWorldResponse::Hello(text) => Some(text),
            HelloWorldResponse::AmountResponses(_) => None,
        }
    }

    /// The result of a call of `amount_responses`, read from the response to
    /// it. `None` when the response is that of another method.
    pub fn amount_responses_result(&self, response: HelloWorldResponse) -> (amount: Option<usize>)
        ensures
            amount is Some == amount_responses_result_of(response@) is Some,
            amount is Some ==> Some(amount->0 as nat) == amount_responses_result_of(response@),
    {
        match response {
            HelloWorldResponse::AmountResponses(count) => Some(count),
            HelloWorldResponse::Hello(_) => None,
        }
    }
}

} // verus!

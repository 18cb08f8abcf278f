//! The greeting service: its two methods, the requests and responses that
//! stand for a call of each, and the server that answers them.

use crate::counter::SharedCounter;
use tarpc::context::Context;
use vstd::prelude::*;
use vstd::string::*;

verus! {

/// The request context of `tarpc` (`tarpc::context::Context`): a deadline and
/// trace information that travel with each call.
///
/// The type is opaque here. The library hands a context on and never looks
/// inside, so nothing is claimed of what it holds.
#[verifier::external_type_specification]
#[verifier::external_body]
pub struct ExContext(tarpc::context::Context);

/// The protocol identifier under which the service is offered and sought:
/// the ASCII bytes of `HELLOWORLD_ALPN`.
pub const HELLOWORLD_ALPN: [u8; 15] = [72, 69, 76, 76, 79, 87, 79, 82, 76, 68, 95, 65, 76, 80, 78];

/// What the service answers to a greeting from `who`.
pub open spec fn greeting(who: Seq<char>) -> Seq<char> {
    "Hello "@ + who
}

/// The service: one method that greets and is counted, one that reports the
/// count.
pub trait HelloWorld {
    /// How many greetings this server has answered.
    spec fn responses(&self) -> nat;

    /// Greets `who` and counts the answer.
    fn hello(&mut self, context: Context, who: String) -> (reply: String)
        requires
            old(self).responses() < usize::MAX,
        ensures
            reply@ == greeting(who@),
            final(self).responses() == old(self).responses() + 1,
    ;

    /// Returns how many responses this server has done.
    fn amount_responses(&self, context: Context) -> (amount: usize)
        ensures
            amount == self.responses(),
    ;
}

/// A server of [`HelloWorld`] that keeps its count in a [`SharedCounter`].
#[derive(Debug)]
pub struct HelloWorldServer {
    amount: SharedCounter,
}

impl HelloWorldServer {
    /// A server that has answered nothing yet.
    pub fn new() -> (server: Self)
        ensures
            server.responses() == 0,
    {
        HelloWorldServer { amount: SharedCounter::new() }
    }
}

impl HelloWorld for HelloWorldServer {
    closed spec fn responses(&self) -> nat {
        self.amount@
    }

    fn hello(&mut self, _context: Context, who: String) -> (reply: String) {
        self.amount.increment();
        String::from_str("Hello ").concat(who.as_str())
    }

    fn amount_responses(&self, _context: Context) -> (amount: usize) {
        self.amount.get()
    }
}

/// A call of one method of [`HelloWorld`], with its arguments.
#[derive(Debug, PartialEq, Eq)]
pub enum HelloWorldRequest {
    Hello { who: String },
    AmountResponses {},
}

/// The result of one method of [`HelloWorld`].
#[derive(Debug, PartialEq, Eq)]
pub enum HelloWorldResponse {
    Hello(String),
    AmountResponses(usize),
}

/// A request as a mathematical value.
pub enum RequestView {
    Hello { who: Seq<char> },
    AmountResponses,
}

/// A response as a mathematical value.
pub enum ResponseView {
    Hello(Seq<char>),
    AmountResponses(nat),
}

impl View for HelloWorldRequest {
    type V = RequestView;

    open spec fn view(&self) -> RequestView {
        match self {
            HelloWorldRequest::Hello { who } => RequestView::Hello { who: who@ },
            HelloWorldRequest::AmountResponses {  } => RequestView::AmountResponses,
        }
    }
}

impl View for HelloWorldResponse {
    type V = ResponseView;

    open spec fn view(&self) -> ResponseView {
        match self {
            HelloWorldResponse::Hello(reply) => ResponseView::Hello(reply@),
            HelloWorldResponse::AmountResponses(amount) => ResponseView::AmountResponses(
                *amount as nat,
            ),
        }
    }
}

/// The response that a server which has answered `responses` greetings
/// owes to `request`.
pub open spec fn response_to(responses: nat, request: RequestView) -> ResponseView {
    match request {
        RequestView::Hello { who } => ResponseView::Hello(greeting(who)),
        RequestView::AmountResponses => ResponseView::AmountResponses(responses),
    }
}

/// The number of greetings answered once a server that had answered
/// `responses` of them has served `request`.
pub open spec fn responses_after(responses: nat, request: RequestView) -> nat {
    match request {
        RequestView::Hello { .. } => responses + 1,
        RequestView::AmountResponses => responses,
    }
}

/// Whether a server that has answered `responses` greetings can serve
/// `request`: a greeting needs room for one more in the count.
pub open spec fn can_serve(responses: nat, request: RequestView) -> bool {
    request is Hello ==> responses < usize::MAX
}

/// Serves one request: calls the method that the request names, with the
/// request's arguments, and wraps what the method returns as the response of
/// that same method.
pub fn serve<S: HelloWorld>(
    service: &mut S,
    context: Context,
    request: HelloWorldRequest,
) -> (response: HelloWorldResponse)
    requires
        can_serve(old(service).responses(), request@),
    ensures
        response@ == response_to(old(service).responses(), request@),
        final(service).responses() == responses_after(old(service).responses(), request@),
        request is AmountResponses ==> *final(service) == *old(service),
{
    match request {
        HelloWorldRequest::Hello { who } => HelloWorldResponse::Hello(service.hello(context, who)),
        HelloWorldRequest::AmountResponses {  } => HelloWorldResponse::AmountResponses(
            service.amount_responses(context),
        ),
    }
}

/// Serves one request if the server can take it, and leaves the server
/// untouched and returns `None` if it cannot.
pub fn try_serve<S: HelloWorld>(
    service: &mut S,
    context: Context,
    request: HelloWorldRequest,
) -> (response: Option<HelloWorldResponse>)
    ensures
        response is Some == can_serve(old(service).responses(), request@),
        response is Some ==> response->0@ == response_to(old(service).responses(), request@),
        response is Some ==> final(service).responses() == responses_after(
            old(service).responses(),
            request@,
        ),
        response is None || request is AmountResponses ==> *final(service) == *old(service),
{
    let full = match request {
        HelloWorldRequest::Hello { .. } => service.amount_responses(context) == usize::MAX,
        HelloWorldRequest::AmountResponses {  } => false,
    };
    if full {
        None
    } else {
        Some(serve(service, context, request))
    }
}

} // verus!

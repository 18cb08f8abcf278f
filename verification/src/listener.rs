//! Many connections side by side.
//!
//! A listener accepts connections one by one and gives each an acceptor of
//! its own. The only thing that connections have in common is the server
//! whose count they share, and only a served request changes that. The
//! lemmas here say what this buys: what happens on one connection stays on
//! that connection.

use crate::connection::{
    fresh, next_action, next_connection, well_formed, ConnectionAction, ConnectionError,
    ConnectionState, ConnectionView, StepOutcome,
};
use crate::service::{response_to, responses_after, RequestView};
use vstd::prelude::*;

verus! {

/// A listener as a mathematical value: the count of the shared server and
/// the connections accepted so far, in the order of their arrival.
pub struct ListenerView {
    /// How many greetings the shared server has answered.
    pub responses: nat,
    /// The connections, each with its own state.
    pub connections: Seq<ConnectionView>,
}

/// The listener once a new connection attempt has arrived.
pub open spec fn with_attempt(listener: ListenerView) -> ListenerView {
    ListenerView { responses: listener.responses, connections: listener.connections.push(fresh()) }
}

/// The listener once the connection at `index` has been told `outcome`.
pub open spec fn with_outcome(listener: ListenerView, index: int, outcome: StepOutcome) -> ListenerView
    recommends
        0 <= index < listener.connections.len(),
{
    ListenerView {
        responses: listener.responses,
        connections: listener.connections.update(
            index,
            next_connection(listener.connections[index], outcome),
        ),
    }
}

/// The listener once a request decoded on a serving connection has been
/// served.
pub open spec fn with_served(listener: ListenerView, index: int, request: RequestView) -> ListenerView
    recommends
        0 <= index < listener.connections.len(),
        listener.connections[index].state == ConnectionState::Serving,
{
    ListenerView {
        responses: responses_after(listener.responses, request),
        connections: listener.connections,
    }
}

/// A failure on one connection is that connection's alone. The connection
/// is closed. Every other connection is as it was, the serving ones among
/// them still serving, and the shared server is as it was, so a request
/// served on any of them is answered as it would have been.
pub proof fn lemma_failure_stays_on_its_connection(
    listener: ListenerView,
    index: int,
    error: ConnectionError,
)
    requires
        0 <= index < listener.connections.len(),
        listener.connections[index].state != ConnectionState::Closed,
    ensures
        with_outcome(listener, index, StepOutcome::Failed(error)).connections[index].state
            == ConnectionState::Closed,
        with_outcome(listener, index, StepOutcome::Failed(error)).connections.len()
            == listener.connections.len(),
        forall|other: int|
            0 <= other < listener.connections.len() && other != index ==> with_outcome(
                listener,
                index,
                StepOutcome::Failed(error),
            ).connections[other] == #[trigger] listener.connections[other],
        with_outcome(listener, index, StepOutcome::Failed(error)).responses == listener.responses,
        forall|request: RequestView| #[trigger]
            response_to(
                with_outcome(listener, index, StepOutcome::Failed(error)).responses,
                request,
            ) == response_to(listener.responses, request),
{
}

/// A handshake that fails is reported to whoever asked for that connection
/// to be accepted and closes that connection. It does not stand in the way
/// of the next attempt: a connection that arrives afterwards and whose
/// steps succeed goes on to serve.
pub proof fn lemma_failed_handshake_leaves_listener_open(listener: ListenerView, index: int)
    requires
        0 <= index < listener.connections.len(),
        listener.connections[index].state == ConnectionState::Pending,
        well_formed(listener.connections[index]),
    ensures
        next_action(listener.connections[index], StepOutcome::Failed(ConnectionError::Handshake))
            == ConnectionAction::Report(ConnectionError::Handshake),
        ({
            let failed = with_outcome(
                listener,
                index,
                StepOutcome::Failed(ConnectionError::Handshake),
            );
            let retried = with_attempt(failed);
            let newcomer = retried.connections.len() - 1;
            let served = with_outcome(
                with_outcome(
                    with_outcome(retried, newcomer, StepOutcome::Done),
                    newcomer,
                    StepOutcome::Done,
                ),
                newcomer,
                StepOutcome::Done,
            );
            &&& failed.connections[index].state == ConnectionState::Closed
            &&& retried.connections[newcomer] == fresh()
            &&& served.connections[newcomer].state == ConnectionState::Serving
            &&& served.connections[index].state == ConnectionState::Closed
            &&& served.responses == listener.responses
        }),
{
}

/// A request served on one connection changes no connection's state.
pub proof fn lemma_serving_leaves_connections(listener: ListenerView, index: int, request: RequestView)
    requires
        0 <= index < listener.connections.len(),
        listener.connections[index].state == ConnectionState::Serving,
    ensures
        with_served(listener, index, request).connections == listener.connections,
{
}

} // verus!

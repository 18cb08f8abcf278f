//! The life cycle of one accepted connection.
//!
//! A connection is driven from outside: a program completes the handshake,
//! opens the stream pair, attaches the framing, builds the channel and then
//! decodes one request frame after another. After each of these steps it
//! tells the [`ConnectionAcceptor`] how the step ended and is told what to do
//! next. The acceptor decides; it never waits and never performs a step
//! itself, so one connection's acceptor cannot hold up another's.

use vstd::prelude::*;

verus! {

/// Where a connection stands.
#[derive(Debug, Clone, Copy, PartialEq, Eq, Structural)]
pub enum ConnectionState {
    /// The handshake is in flight; no stream pair yet.
    Pending,
    /// The stream pair has been obtained.
    Accepted,
    /// The two halves are joined and the framing is attached.
    Framed,
    /// The dispatch loop is running.
    Serving,
    /// The stream has ended or the connection has failed. Terminal.
    Closed,
}

/// Why a connection was given up.
#[derive(Debug, Clone, Copy, PartialEq, Eq, Structural)]
pub enum ConnectionError {
    /// The handshake did not complete.
    Handshake,
    /// The stream pair could not be opened.
    StreamOpen,
    /// A read or a write on the established stream pair failed.
    Stream,
    /// A frame could not be decoded into a request.
    Decode,
}

/// What an established channel says of a step that failed on it.
#[derive(Debug, Clone, Copy, PartialEq, Eq, Structural)]
pub enum ChannelFault {
    /// Nothing more could be read. `malformed` tells that bytes did arrive
    /// but were no frame, or that the frame held no request.
    Read { malformed: bool },
    /// A response could not be written, flushed, or the stream not closed.
    Write,
}

/// The kind of failure that a fault of the channel amounts to: malformed
/// input is a decoding failure, everything else a failure of the stream.
pub open spec fn error_of(fault: ChannelFault) -> ConnectionError {
    match fault {
        ChannelFault::Read { malformed: true } => ConnectionError::Decode,
        _ => ConnectionError::Stream,
    }
}

impl ChannelFault {
    /// The kind of failure that this fault amounts to.
    pub fn error(self) -> (error: ConnectionError)
        ensures
            error == error_of(self),
    {
        match self {
            ChannelFault::Read { malformed } => if malformed {
                ConnectionError::Decode
            } else {
                ConnectionError::Stream
            },
            ChannelFault::Write => ConnectionError::Stream,
        }
    }
}

/// How the step that a connection was waiting for has ended.
#[derive(Debug, Clone, Copy, PartialEq, Eq, Structural)]
pub enum StepOutcome {
    /// The step succeeded. While serving, the step is the decoding of one
    /// request frame.
    Done,
    /// The peer has ended the stream.
    EndOfStream,
    /// The step failed.
    Failed(ConnectionError),
}

/// What the driving program is to do next.
#[derive(Debug, Clone, Copy, PartialEq, Eq, Structural)]
pub enum ConnectionAction {
    /// Join the two halves and attach the framing.
    AttachCodec,
    /// Build the server-side channel over the framed stream.
    BuildChannel,
    /// Decode the next request frame. One decode is outstanding at a time.
    DecodeNext,
    /// Hand the request just decoded to a task of its own, without waiting
    /// for it, and decode the next request frame.
    Dispatch,
    /// Stop, and report success to whoever asked for the connection to be
    /// accepted.
    Finish,
    /// Stop, and report the error to whoever asked for the connection to be
    /// accepted.
    Report(ConnectionError),
    /// The connection was closed before; there is nothing left to do.
    Nothing,
}

/// A connection as a mathematical value.
pub struct ConnectionView {
    /// Where the connection stands.
    pub state: ConnectionState,
    /// Whether at least one request frame has been decoded on it.
    pub decoded: bool,
}

/// The position of a state along the life cycle.
pub open spec fn rank(state: ConnectionState) -> nat {
    match state {
        ConnectionState::Pending => 0,
        ConnectionState::Accepted => 1,
        ConnectionState::Framed => 2,
        ConnectionState::Serving => 3,
        ConnectionState::Closed => 4,
    }
}

/// A request can only have been decoded on a connection that has reached
/// `Serving`.
pub open spec fn well_formed(connection: ConnectionView) -> bool {
    connection.decoded ==> rank(connection.state) >= 3
}

/// A connection on which nothing has happened yet.
pub open spec fn fresh() -> ConnectionView {
    ConnectionView { state: ConnectionState::Pending, decoded: false }
}

/// The connection that results from `outcome`.
///
/// `Closed` is kept whatever happens. Any other state is left for `Closed`
/// when the stream ends or a step fails, and for the next state in line
/// when its step is done; `Serving` is kept by each decoded request.
pub open spec fn next_connection(connection: ConnectionView, outcome: StepOutcome) -> ConnectionView {
    match (connection.state, outcome) {
        (ConnectionState::Closed, _) => connection,
        (ConnectionState::Pending, StepOutcome::Done) => ConnectionView {
            state: ConnectionState::Accepted,
            decoded: false,
        },
        (ConnectionState::Accepted, StepOutcome::Done) => ConnectionView {
            state: ConnectionState::Framed,
            decoded: false,
        },
        (ConnectionState::Framed, StepOutcome::Done) => ConnectionView {
            state: ConnectionState::Serving,
            decoded: false,
        },
        (ConnectionState::Serving, StepOutcome::Done) => ConnectionView {
            state: ConnectionState::Serving,
            decoded: true,
        },
        (_, _) => ConnectionView { state: ConnectionState::Closed, decoded: connection.decoded },
    }
}

/// What is to be done after `outcome`.
///
/// A failure is reported as long as no request has been decoded on the
/// connection: a handshake that fails, a stream pair that cannot be opened,
/// a first frame that cannot be decoded. Once requests have been served, a
/// failure ends the connection like the end of the stream does.
pub open spec fn next_action(connection: ConnectionView, outcome: StepOutcome) -> ConnectionAction {
    match (connection.state, outcome) {
        (ConnectionState::Closed, _) => ConnectionAction::Nothing,
        (ConnectionState::Pending, StepOutcome::Done) => ConnectionAction::AttachCodec,
        (ConnectionState::Accepted, StepOutcome::Done) => ConnectionAction::BuildChannel,
        (ConnectionState::Framed, StepOutcome::Done) => ConnectionAction::DecodeNext,
        (ConnectionState::Serving, StepOutcome::Done) => ConnectionAction::Dispatch,
        (_, StepOutcome::EndOfStream) => ConnectionAction::Finish,
        (_, StepOutcome::Failed(error)) => if connection.decoded {
            ConnectionAction::Finish
        } else {
            ConnectionAction::Report(error)
        },
    }
}

/// The connection that results from a run of outcomes, taken in order.
pub open spec fn connection_after(connection: ConnectionView, outcomes: Seq<StepOutcome>) -> ConnectionView
    decreases outcomes.len(),
{
    if outcomes.len() == 0 {
        connection
    } else {
        next_connection(connection_after(connection, outcomes.drop_last()), outcomes.last())
    }
}

/// A step keeps a connection well formed and never takes it back: the new
/// state is the old one, the one after it, or `Closed`.
pub proof fn lemma_step_moves_forward(connection: ConnectionView, outcome: StepOutcome)
    requires
        well_formed(connection),
    ensures
        well_formed(next_connection(connection, outcome)),
        rank(next_connection(connection, outcome).state) == rank(connection.state) || rank(
            next_connection(connection, outcome).state,
        ) == rank(connection.state) + 1 || next_connection(connection, outcome).state
            == ConnectionState::Closed,
        connection.decoded ==> next_connection(connection, outcome).decoded,
{
}

/// `Closed` is terminal: a closed connection stays as it is and asks for
/// nothing, whatever is reported to it.
pub proof fn lemma_closed_is_terminal(connection: ConnectionView, outcome: StepOutcome)
    requires
        connection.state == ConnectionState::Closed,
    ensures
        next_connection(connection, outcome) == connection,
        next_action(connection, outcome) == ConnectionAction::Nothing,
{
}

/// `Closed` is reached from every other state by a failure and by the end
/// of the stream, and the driving program is then told to stop: with the
/// error as long as no request has been decoded, with success otherwise.
pub proof fn lemma_open_connection_closes(connection: ConnectionView, outcome: StepOutcome)
    requires
        connection.state != ConnectionState::Closed,
        outcome != StepOutcome::Done,
    ensures
        next_connection(connection, outcome).state == ConnectionState::Closed,
        next_action(connection, outcome) == match outcome {
            StepOutcome::Failed(error) if !connection.decoded => ConnectionAction::Report(error),
            _ => ConnectionAction::Finish,
        },
{
}

/// A run of `steps` steps that all succeed.
pub open spec fn all_done(steps: nat) -> Seq<StepOutcome> {
    Seq::new(steps, |i: int| StepOutcome::Done)
}

/// A connection whose steps all succeed is served: three steps take it from
/// `Pending` through `Accepted` and `Framed` to `Serving`, and every request
/// decoded from then on is dispatched while the connection keeps serving.
pub proof fn lemma_clean_run_serves(requests: nat)
    ensures
        connection_after(fresh(), all_done(1)).state == ConnectionState::Accepted,
        connection_after(fresh(), all_done(2)).state == ConnectionState::Framed,
        connection_after(fresh(), all_done(3 + requests)).state == ConnectionState::Serving,
        connection_after(fresh(), all_done(3 + requests)).decoded == (requests > 0),
        next_action(connection_after(fresh(), all_done(3 + requests)), StepOutcome::Done)
            == ConnectionAction::Dispatch,
    decreases requests,
{
    assert(all_done(1).drop_last() =~= all_done(0));
    assert(all_done(2).drop_last() =~= all_done(1));
    assert(connection_after(fresh(), all_done(0)) == fresh());
    assert(connection_after(fresh(), all_done(1)).state == ConnectionState::Accepted);
    assert(connection_after(fresh(), all_done(2)).state == ConnectionState::Framed);
    assert(all_done(3 + requests).drop_last() =~= all_done((2 + requests) as nat));
    if requests > 0 {
        lemma_clean_run_serves((requests - 1) as nat);
    }
}

/// Over any run of outcomes a well-formed connection stays well formed and
/// its state never moves back.
pub proof fn lemma_run_moves_forward(connection: ConnectionView, outcomes: Seq<StepOutcome>)
    requires
        well_formed(connection),
    ensures
        well_formed(connection_after(connection, outcomes)),
        rank(connection_after(connection, outcomes).state) >= rank(connection.state),
    decreases outcomes.len(),
{
    if outcomes.len() > 0 {
        lemma_run_moves_forward(connection, outcomes.drop_last());
        lemma_step_moves_forward(connection_after(connection, outcomes.drop_last()), outcomes.last());
    }
}

/// A connection that has been closed stays closed over any further run.
pub proof fn lemma_closed_for_good(connection: ConnectionView, outcomes: Seq<StepOutcome>)
    requires
        connection.state == ConnectionState::Closed,
    ensures
        connection_after(connection, outcomes) == connection,
    decreases outcomes.len(),
{
    if outcomes.len() > 0 {
        lemma_closed_for_good(connection, outcomes.drop_last());
    }
}

/// The decisions of one accepted connection.
#[derive(Debug)]
pub struct ConnectionAcceptor {
    state: ConnectionState,
    decoded: bool,
}

impl View for ConnectionAcceptor {
    type V = ConnectionView;

    closed spec fn view(&self) -> ConnectionView {
        ConnectionView { state: self.state, decoded: self.decoded }
    }
}

impl ConnectionAcceptor {
    #[verifier::type_invariant]
    spec fn type_inv(self) -> bool {
        well_formed(self@)
    }

    /// The acceptor of a connection whose handshake has just begun.
    pub fn new() -> (acceptor: Self)
        ensures
            acceptor@ == fresh(),
    {
        ConnectionAcceptor { state: ConnectionState::Pending, decoded: false }
    }

    /// Where the connection stands.
    pub fn state(&self) -> (state: ConnectionState)
        ensures
            state == self@.state,
    {
        self.state
    }

    /// Takes note of how the awaited step has ended and decides what is to
    /// be done next.
    pub fn advance(&mut self, outcome: StepOutcome) -> (action: ConnectionAction)
        ensures
            well_formed(old(self)@),
            final(self)@ == next_connection(old(self)@, outcome),
            action == next_action(old(self)@, outcome),
    {
        proof {
            use_type_invariant(&*self);
        }
        match self.state {
            ConnectionState::Closed => ConnectionAction::Nothing,
            ConnectionState::Pending => match outcome {
                StepOutcome::Done => {
                    self.state = ConnectionState::Accepted;
                    ConnectionAction::AttachCodec
                },
                StepOutcome::EndOfStream => self.close(None),
                StepOutcome::Failed(error) => self.close(Some(error)),
            },
            ConnectionState::Accepted => match outcome {
                StepOutcome::Done => {
                    self.state = ConnectionState::Framed;
                    ConnectionAction::BuildChannel
                },
                StepOutcome::EndOfStream => self.close(None),
                StepOutcome::Failed(error) => self.close(Some(error)),
            },
            ConnectionState::Framed => match outcome {
                StepOutcome::Done => {
                    self.state = ConnectionState::Serving;
                    ConnectionAction::DecodeNext
                },
                StepOutcome::EndOfStream => self.close(None),
                StepOutcome::Failed(error) => self.close(Some(error)),
            },
            ConnectionState::Serving => match outcome {
                StepOutcome::Done => {
                    self.decoded = true;
                    ConnectionAction::Dispatch
                },
                StepOutcome::EndOfStream => self.close(None),
                StepOutcome::Failed(error) => self.close(Some(error)),
            },
        }
    }

    /// Closes a connection that is still open, for the end of the stream
    /// (`None`) or for a failure.
    fn close(&mut self, failure: Option<ConnectionError>) -> (action: ConnectionAction)
        requires
            old(self)@.state != ConnectionState::Closed,
        ensures
            final(self)@ == (ConnectionView {
                state: ConnectionState::Closed,
                decoded: old(self)@.decoded,
            }),
            action == match failure {
                Some(error) if !old(self)@.decoded => ConnectionAction::Report(error),
                _ => ConnectionAction::Finish,
            },
    {
        self.state = ConnectionState::Closed;
        match failure {
            Some(error) => if self.decoded {
                ConnectionAction::Finish
            } else {
                ConnectionAction::Report(error)
            },
            None => ConnectionAction::Finish,
        }
    }
}

} // verus!

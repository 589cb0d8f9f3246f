//! The TLS socket transport: the listener that accepts connections, and the
//! worker that serves one connection from its handshake to its end.
//!
//! Both are state machines. A state awaits the outcome of one operation,
//! which the caller carries out; the outcome is handed back as an event.
//! An event that does not answer the awaited operation counts as that
//! operation's failure.

use vstd::prelude::*;
use vstd::string::*;

use crate::decode::{decode, decoded};
use crate::record::{DecodeError, EnvironmentalRecord, RecordView};
use crate::schema::{Schema, SchemaView};
use crate::text::{host_port, host_port_text};
use crate::wire::{received, received_bytes};

verus! {

/// The number of connections that are served at one time.
pub const WORKER_POOL_SIZE: usize = 10;

/// The size of the buffer that one read fills; one read is one payload.
pub const READ_BUFFER_SIZE: usize = 512;

/// How long one read waits for data, in milliseconds.
pub const READ_TIMEOUT_MS: u64 = 100;

/// The address and port that a socket listens on.
#[derive(Clone, Debug)]
pub struct SocketParameters {
    /// The address to listen on.
    pub address: String,
    /// The port to listen on.
    pub port: u32,
}

/// The parameters of the TLS listener: where it listens, and the PKCS #12
/// bundle that holds its certificate and key.
#[derive(Clone, Debug)]
pub struct TlsSocketParameters {
    /// Where the socket listens.
    pub socket_params: SocketParameters,
    /// Path of the PKCS #12 file.
    pub pkcs12_identity_file: String,
    /// The passphrase that unlocks the PKCS #12 file.
    pub pkcs12_file_password: String,
}

impl SocketParameters {
    /// The text to bind to: the address, a colon, the port.
    pub fn bind_address(&self) -> (r: String)
        ensures
            r@ == host_port(self.address@, self.port as nat),
    {
        host_port_text(self.address.as_str(), self.port)
    }
}

/// The state of a TLS handshake.
#[derive(Clone, Copy, Debug, PartialEq, Eq)]
pub enum HandshakeState {
    /// No attempt was made yet.
    Initiated,
    /// The last attempt could not go on without waiting.
    WouldBlock,
    /// The handshake is done and the stream is secured.
    Established,
    /// The handshake failed for good.
    Failed,
}

/// What one attempt at a handshake reported.
#[derive(Clone, Copy, Debug, PartialEq, Eq)]
pub enum HandshakeOutcome {
    Completed,
    WouldBlock,
    Failure,
}

/// The state of a handshake after one more attempt. An attempt that would
/// block leaves the handshake to be tried again; a handshake that is
/// established or has failed stays so.
pub open spec fn handshake_next(state: HandshakeState, outcome: HandshakeOutcome) -> HandshakeState {
    match state {
        HandshakeState::Initiated | HandshakeState::WouldBlock => match outcome {
            HandshakeOutcome::Completed => HandshakeState::Established,
            HandshakeOutcome::WouldBlock => HandshakeState::WouldBlock,
            HandshakeOutcome::Failure => HandshakeState::Failed,
        },
        _ => state,
    }
}

/// Takes the report of one attempt at the handshake.
pub fn tls_handshake(state: HandshakeState, outcome: HandshakeOutcome) -> (next: HandshakeState)
    ensures
        next == handshake_next(state, outcome),
{
    match state {
        HandshakeState::Initiated | HandshakeState::WouldBlock => match outcome {
            HandshakeOutcome::Completed => HandshakeState::Established,
            HandshakeOutcome::WouldBlock => HandshakeState::WouldBlock,
            HandshakeOutcome::Failure => HandshakeState::Failed,
        },
        _ => state,
    }
}

/// The state of a handshake after a sequence of attempts.
pub open spec fn handshake_run(state: HandshakeState, outcomes: Seq<HandshakeOutcome>) -> HandshakeState
    decreases outcomes.len(),
{
    if outcomes.len() == 0 {
        state
    } else {
        handshake_next(handshake_run(state, outcomes.drop_last()), outcomes.last())
    }
}

/// What the worker of one connection has to do next.
#[derive(Clone, Copy, Debug, PartialEq, Eq)]
pub enum ConnectionAction {
    /// Begin the handshake, or take it up again where it would have blocked.
    Handshake,
    /// Give reads on the stream a timeout of `READ_TIMEOUT_MS`.
    SetReadTimeout,
    /// Look at the shutdown flag.
    ObserveShutdown,
    /// Read once, up to `READ_BUFFER_SIZE` bytes.
    Read,
    /// Put the record that came with this step on the handoff queue.
    Forward,
    /// Drop the payload; it did not decode.
    Discard(DecodeError),
    /// Shut the stream down.
    Close,
    /// Give the worker's slot back: the connection is over.
    Release,
}

/// What the worker of one connection reports back.
#[derive(Clone, Copy, Debug, PartialEq, Eq)]
pub enum ConnectionEvent {
    /// The outcome of an attempt at the handshake.
    Handshake(HandshakeOutcome),
    /// The operation was carried out.
    Succeeded,
    /// The operation failed.
    Failed,
    /// The shutdown flag was looked at and was set, or not.
    Shutdown(bool),
    /// A read put this many bytes into the buffer.
    Read(usize),
    /// A read ran into its timeout.
    WouldBlock,
}

/// The state of the worker of one connection.
#[derive(Clone, Copy, Debug, PartialEq, Eq)]
pub enum ConnectionState {
    /// The handshake. Once established, the read timeout is set next; once
    /// failed, the connection is given up.
    Handshake(HandshakeState),
    /// The shutdown flag is looked at before each read.
    Checking,
    Reading,
    /// A record was decoded and is being forwarded.
    Sending,
    /// A payload did not decode and is being dropped.
    Discarding(DecodeError),
    Closing,
    Released,
}

/// The operation that a state awaits.
pub open spec fn connection_action(state: ConnectionState) -> ConnectionAction {
    match state {
        ConnectionState::Handshake(HandshakeState::Initiated) => ConnectionAction::Handshake,
        ConnectionState::Handshake(HandshakeState::WouldBlock) => ConnectionAction::Handshake,
        ConnectionState::Handshake(HandshakeState::Established) => ConnectionAction::SetReadTimeout,
        ConnectionState::Handshake(HandshakeState::Failed) => ConnectionAction::Release,
        ConnectionState::Checking => ConnectionAction::ObserveShutdown,
        ConnectionState::Reading => ConnectionAction::Read,
        ConnectionState::Sending => ConnectionAction::Forward,
        ConnectionState::Discarding(e) => ConnectionAction::Discard(e),
        ConnectionState::Closing => ConnectionAction::Close,
        ConnectionState::Released => ConnectionAction::Release,
    }
}

/// The state after a read of `count` bytes into `buffer`: the end of the
/// stream where nothing was read, else the payload is decoded.
pub open spec fn after_read(schema: SchemaView, buffer: Seq<u8>, count: usize) -> ConnectionState {
    if count == 0 {
        ConnectionState::Closing
    } else {
        match decoded(schema, received(buffer, count)) {
            Ok(_) => ConnectionState::Sending,
            Err(e) => ConnectionState::Discarding(e),
        }
    }
}

/// The state of a connection's worker after an event.
///
/// A handshake that would block is tried again at once, and one that fails
/// gives up this connection only. Once the stream is secured its read timeout
/// is set; if that fails the stream is closed. Then, before each read, the
/// shutdown flag is looked at: if it is set, the stream is closed. A read of
/// no bytes is the peer's orderly close. A read that timed out or failed is
/// followed by the next look at the flag, and so is a payload that was
/// forwarded or dropped, whether or not the queue took the record.
pub open spec fn connection_next(
    schema: SchemaView,
    state: ConnectionState,
    event: ConnectionEvent,
    buffer: Seq<u8>,
) -> ConnectionState {
    match state {
        ConnectionState::Handshake(HandshakeState::Initiated)
        | ConnectionState::Handshake(HandshakeState::WouldBlock) => match event {
            ConnectionEvent::Handshake(outcome) => ConnectionState::Handshake(
                handshake_next(state->Handshake_0, outcome),
            ),
            _ => ConnectionState::Handshake(HandshakeState::Failed),
        },
        ConnectionState::Handshake(HandshakeState::Established) => match event {
            ConnectionEvent::Succeeded => ConnectionState::Checking,
            _ => ConnectionState::Closing,
        },
        ConnectionState::Handshake(HandshakeState::Failed) => ConnectionState::Released,
        ConnectionState::Checking => match event {
            ConnectionEvent::Shutdown(false) => ConnectionState::Reading,
            _ => ConnectionState::Closing,
        },
        ConnectionState::Reading => match event {
            ConnectionEvent::Read(count) => after_read(schema, buffer, count),
            _ => ConnectionState::Checking,
        },
        ConnectionState::Sending => ConnectionState::Checking,
        ConnectionState::Discarding(_) => ConnectionState::Checking,
        ConnectionState::Closing => ConnectionState::Released,
        ConnectionState::Released => ConnectionState::Released,
    }
}

/// The state in which the worker of an accepted connection begins.
pub fn connection_start() -> (state: ConnectionState)
    ensures
        state == ConnectionState::Handshake(HandshakeState::Initiated),
{
    ConnectionState::Handshake(HandshakeState::Initiated)
}

/// The operation to carry out in a state.
pub fn connection_pending(state: ConnectionState) -> (action: ConnectionAction)
    ensures
        action == connection_action(state),
{
    match state {
        ConnectionState::Handshake(HandshakeState::Initiated) => ConnectionAction::Handshake,
        ConnectionState::Handshake(HandshakeState::WouldBlock) => ConnectionAction::Handshake,
        ConnectionState::Handshake(HandshakeState::Established) => ConnectionAction::SetReadTimeout,
        ConnectionState::Handshake(HandshakeState::Failed) => ConnectionAction::Release,
        ConnectionState::Checking => ConnectionAction::ObserveShutdown,
        ConnectionState::Reading => ConnectionAction::Read,
        ConnectionState::Sending => ConnectionAction::Forward,
        ConnectionState::Discarding(e) => ConnectionAction::Discard(e),
        ConnectionState::Closing => ConnectionAction::Close,
        ConnectionState::Released => ConnectionAction::Release,
    }
}

/// Takes the outcome of the awaited operation and moves on. `buffer` is the
/// buffer that the last read filled; it is looked at only after a read. A
/// record comes back exactly when the next state is `Sending`: it is what
/// the payload decodes to, and it is the record to forward.
pub fn handle_tls_stream(
    schema: &Schema,
    state: ConnectionState,
    event: ConnectionEvent,
    buffer: &[u8],
) -> (next: (ConnectionState, Option<EnvironmentalRecord>))
    ensures
        next.0 == connection_next(schema@, state, event, buffer@),
        next.1.is_some() == (next.0 is Sending),
        next.1 matches Some(record) ==> event matches ConnectionEvent::Read(count) && decoded(
            schema@,
            received(buffer@, count),
        ) == Ok::<RecordView, DecodeError>(record@) && record.matches_schema(schema),
{
    match state {
        ConnectionState::Handshake(HandshakeState::Initiated)
        | ConnectionState::Handshake(HandshakeState::WouldBlock) => match event {
            ConnectionEvent::Handshake(outcome) => {
                let handshake = match state {
                    ConnectionState::Handshake(h) => h,
                    _ => HandshakeState::Initiated,
                };
                (ConnectionState::Handshake(tls_handshake(handshake, outcome)), None)
            },
            _ => (ConnectionState::Handshake(HandshakeState::Failed), None),
        },
        ConnectionState::Handshake(HandshakeState::Established) => match event {
            ConnectionEvent::Succeeded => (ConnectionState::Checking, None),
            _ => (ConnectionState::Closing, None),
        },
        ConnectionState::Handshake(HandshakeState::Failed) => (ConnectionState::Released, None),
        ConnectionState::Checking => match event {
            ConnectionEvent::Shutdown(false) => (ConnectionState::Reading, None),
            _ => (ConnectionState::Closing, None),
        },
        ConnectionState::Reading => match event {
            ConnectionEvent::Read(count) => {
                if count == 0 {
                    (ConnectionState::Closing, None)
                } else {
                    match decode(schema, received_bytes(buffer, count)) {
                        Ok(record) => (ConnectionState::Sending, Some(record)),
                        Err(e) => (ConnectionState::Discarding(e), None),
                    }
                }
            },
            _ => (ConnectionState::Checking, None),
        },
        ConnectionState::Sending => (ConnectionState::Checking, None),
        ConnectionState::Discarding(_) => (ConnectionState::Checking, None),
        ConnectionState::Closing => (ConnectionState::Released, None),
        ConnectionState::Released => (ConnectionState::Released, None),
    }
}

/// The outcomes of `blocked` attempts that would block, followed by one
/// that completes.
pub open spec fn blocked_then_completed(blocked: nat) -> Seq<HandshakeOutcome> {
    Seq::new(blocked, |i: int| HandshakeOutcome::WouldBlock).push(HandshakeOutcome::Completed)
}

/// A handshake that has not resolved stays unresolved, and so to be tried
/// again, through any number of attempts that would block.
pub proof fn lemma_handshake_waits(blocked: nat)
    ensures
        blocked == 0 ==> handshake_run(
            HandshakeState::Initiated,
            Seq::new(blocked, |i: int| HandshakeOutcome::WouldBlock),
        ) == HandshakeState::Initiated,
        blocked > 0 ==> handshake_run(
            HandshakeState::Initiated,
            Seq::new(blocked, |i: int| HandshakeOutcome::WouldBlock),
        ) == HandshakeState::WouldBlock,
    decreases blocked,
{
    let outcomes = Seq::new(blocked, |i: int| HandshakeOutcome::WouldBlock);
    if blocked > 0 {
        lemma_handshake_waits((blocked - 1) as nat);
        assert(outcomes.drop_last() =~= Seq::new(
            (blocked - 1) as nat,
            |i: int| HandshakeOutcome::WouldBlock,
        ));
    }
}

/// A handshake that would block any number of times before it completes is
/// established in the end, and the worker then serves the connection: with
/// the read timeout set and the shutdown flag not set it reads, and a
/// payload that decodes is forwarded as the record it decodes to.
pub proof fn lemma_handshake_survives_would_block(
    blocked: nat,
    schema: SchemaView,
    buffer: Seq<u8>,
    count: usize,
)
    ensures
        handshake_run(HandshakeState::Initiated, blocked_then_completed(blocked))
            == HandshakeState::Established,
        connection_action(ConnectionState::Handshake(HandshakeState::Established))
            == ConnectionAction::SetReadTimeout,
        connection_next(
            schema,
            ConnectionState::Handshake(HandshakeState::Established),
            ConnectionEvent::Succeeded,
            buffer,
        ) == ConnectionState::Checking,
        connection_next(schema, ConnectionState::Checking, ConnectionEvent::Shutdown(false), buffer)
            == ConnectionState::Reading,
        count > 0 && decoded(schema, received(buffer, count)) is Ok ==> connection_next(
            schema,
            ConnectionState::Reading,
            ConnectionEvent::Read(count),
            buffer,
        ) == ConnectionState::Sending,
{
    lemma_handshake_waits(blocked);
    let outcomes = blocked_then_completed(blocked);
    assert(outcomes.drop_last() =~= Seq::new(blocked, |i: int| HandshakeOutcome::WouldBlock));
    assert(outcomes.last() == HandshakeOutcome::Completed);
}

/// A payload that does not decode is dropped and nothing is forwarded for
/// it; the connection stays open and, unless the shutdown flag is set,
/// reads the next payload.
pub proof fn lemma_malformed_payload_is_dropped(
    schema: SchemaView,
    buffer: Seq<u8>,
    count: usize,
    next_buffer: Seq<u8>,
    event: ConnectionEvent,
)
    requires
        count > 0,
        decoded(schema, received(buffer, count)) is Err,
    ensures
        connection_next(schema, ConnectionState::Reading, ConnectionEvent::Read(count), buffer)
            == ConnectionState::Discarding(decoded(schema, received(buffer, count))->Err_0),
        connection_action(
            connection_next(schema, ConnectionState::Reading, ConnectionEvent::Read(count), buffer),
        ) is Discard,
        connection_next(
            schema,
            ConnectionState::Discarding(decoded(schema, received(buffer, count))->Err_0),
            event,
            next_buffer,
        ) == ConnectionState::Checking,
        connection_next(
            schema,
            ConnectionState::Checking,
            ConnectionEvent::Shutdown(false),
            next_buffer,
        ) == ConnectionState::Reading,
{
}

/// How many operations a serving connection carries out at most before it
/// looks at the shutdown flag again or winds down.
pub open spec fn connection_until_check(state: ConnectionState) -> nat {
    match state {
        ConnectionState::Reading => 2,
        ConnectionState::Sending => 1,
        ConnectionState::Discarding(_) => 1,
        ConnectionState::Handshake(HandshakeState::Established) => 1,
        _ => 0,
    }
}

/// Whether a connection is winding down: it reads no more and forwards
/// nothing more.
pub open spec fn connection_winding_down(state: ConnectionState) -> bool {
    state is Closing || state is Released || state == ConnectionState::Handshake(
        HandshakeState::Failed,
    )
}

/// A connection whose handshake is over looks at the shutdown flag before
/// every read, so at most two operations lie between a read and the next
/// look. Once the flag is seen set, the stream is closed and the worker's
/// slot is given back after two more operations, none of them a read.
pub proof fn lemma_connection_heeds_shutdown(
    schema: SchemaView,
    state: ConnectionState,
    event: ConnectionEvent,
    later: ConnectionEvent,
    buffer: Seq<u8>,
)
    ensures
        connection_until_check(state) > 0 ==> connection_until_check(
            connection_next(schema, state, event, buffer),
        ) < connection_until_check(state),
        connection_next(schema, ConnectionState::Checking, ConnectionEvent::Shutdown(true), buffer)
            == ConnectionState::Closing,
        connection_winding_down(state) ==> connection_winding_down(
            connection_next(schema, state, event, buffer),
        ),
        connection_winding_down(state) ==> connection_next(
            schema,
            connection_next(schema, state, event, buffer),
            later,
            buffer,
        ) == ConnectionState::Released,
{
}

/// The steps that set the listener up, in their order.
#[derive(Clone, Copy, Debug, PartialEq, Eq)]
pub enum ListenerSetup {
    /// Open the PKCS #12 file.
    OpenIdentity,
    /// Read the PKCS #12 file to its end.
    ReadIdentity,
    /// Unlock the server identity with the passphrase.
    ParseIdentity,
    /// Build the TLS acceptor, with TLS 1.2 as the least protocol version.
    BuildAcceptor,
    /// Bind the listening socket.
    Bind,
    /// Make `accept` return at once where no connection waits.
    SetNonblocking,
    /// Ask the socket for the address it listens on.
    LocalAddress,
    /// Start the pool of `WORKER_POOL_SIZE` connection workers.
    StartPool,
}

/// What the listener has to do next.
#[derive(Clone, Copy, Debug, PartialEq, Eq)]
pub enum ListenerAction {
    Setup(ListenerSetup),
    /// Accept a connection if one waits.
    Accept,
    /// Look at the shutdown flag.
    ObserveShutdown,
    /// Hand the accepted connection to the worker pool.
    Dispatch,
    /// Wait until every connection worker has given its slot back.
    JoinPool,
    /// Set the shutdown flag.
    RaiseShutdown,
    /// Return.
    Stop,
}

/// What the listener reports back.
#[derive(Clone, Copy, Debug, PartialEq, Eq)]
pub enum ListenerEvent {
    /// The operation was carried out.
    Succeeded,
    /// The operation failed.
    Failed,
    /// A connection was accepted.
    Accepted,
    /// No connection waited.
    WouldBlock,
    /// The shutdown flag was looked at and was set, or not.
    Shutdown(bool),
}

/// The state of the listener.
#[derive(Clone, Copy, Debug, PartialEq, Eq)]
pub enum ListenerState {
    Setup(ListenerSetup),
    Accepting,
    /// The shutdown flag is looked at after each `accept`; `accepted` says
    /// whether that gave a connection.
    Checking { accepted: bool },
    Dispatching,
    /// The worker pool is being drained.
    Draining,
    /// A step of the setup failed.
    Failing,
    Stopped,
}

/// The state that follows a step of the setup that was carried out.
pub open spec fn listener_after_setup(step: ListenerSetup) -> ListenerState {
    match step {
        ListenerSetup::OpenIdentity => ListenerState::Setup(ListenerSetup::ReadIdentity),
        ListenerSetup::ReadIdentity => ListenerState::Setup(ListenerSetup::ParseIdentity),
        ListenerSetup::ParseIdentity => ListenerState::Setup(ListenerSetup::BuildAcceptor),
        ListenerSetup::BuildAcceptor => ListenerState::Setup(ListenerSetup::Bind),
        ListenerSetup::Bind => ListenerState::Setup(ListenerSetup::SetNonblocking),
        ListenerSetup::SetNonblocking => ListenerState::Setup(ListenerSetup::LocalAddress),
        ListenerSetup::LocalAddress => ListenerState::Setup(ListenerSetup::StartPool),
        ListenerSetup::StartPool => ListenerState::Accepting,
    }
}

/// The state of the listener after an event.
///
/// A step of the setup that fails is fatal: the shutdown flag is set and
/// the listener returns without having accepted a connection. After each
/// `accept`, whatever it gave, the shutdown flag is looked at. If it is
/// set, the worker pool is drained and the listener returns; if not, an
/// accepted connection is handed to the pool and the listener accepts again.
pub open spec fn listener_next(state: ListenerState, event: ListenerEvent) -> ListenerState {
    match state {
        ListenerState::Setup(step) => match event {
            ListenerEvent::Succeeded => listener_after_setup(step),
            _ => ListenerState::Failing,
        },
        ListenerState::Accepting => ListenerState::Checking { accepted: event is Accepted },
        ListenerState::Checking { accepted } => match event {
            ListenerEvent::Shutdown(false) => if accepted {
                ListenerState::Dispatching
            } else {
                ListenerState::Accepting
            },
            _ => ListenerState::Draining,
        },
        ListenerState::Dispatching => ListenerState::Accepting,
        ListenerState::Draining => ListenerState::Stopped,
        ListenerState::Failing => ListenerState::Stopped,
        ListenerState::Stopped => ListenerState::Stopped,
    }
}

/// The operation that a state of the listener awaits.
pub open spec fn listener_action(state: ListenerState) -> ListenerAction {
    match state {
        ListenerState::Setup(step) => ListenerAction::Setup(step),
        ListenerState::Accepting => ListenerAction::Accept,
        ListenerState::Checking { accepted } => ListenerAction::ObserveShutdown,
        ListenerState::Dispatching => ListenerAction::Dispatch,
        ListenerState::Draining => ListenerAction::JoinPool,
        ListenerState::Failing => ListenerAction::RaiseShutdown,
        ListenerState::Stopped => ListenerAction::Stop,
    }
}

/// The state in which the listener begins.
pub fn listener_start() -> (state: ListenerState)
    ensures
        state == ListenerState::Setup(ListenerSetup::OpenIdentity),
{
    ListenerState::Setup(ListenerSetup::OpenIdentity)
}

/// The operation to carry out in a state of the listener.
pub fn listener_pending(state: ListenerState) -> (action: ListenerAction)
    ensures
        action == listener_action(state),
{
    match state {
        ListenerState::Setup(step) => ListenerAction::Setup(step),
        ListenerState::Accepting => ListenerAction::Accept,
        ListenerState::Checking { accepted } => ListenerAction::ObserveShutdown,
        ListenerState::Dispatching => ListenerAction::Dispatch,
        ListenerState::Draining => ListenerAction::JoinPool,
        ListenerState::Failing => ListenerAction::RaiseShutdown,
        ListenerState::Stopped => ListenerAction::Stop,
    }
}

fn listener_setup_done(step: ListenerSetup) -> (next: ListenerState)
    ensures
        next == listener_after_setup(step),
{
    match step {
        ListenerSetup::OpenIdentity => ListenerState::Setup(ListenerSetup::ReadIdentity),
        ListenerSetup::ReadIdentity => ListenerState::Setup(ListenerSetup::ParseIdentity),
        ListenerSetup::ParseIdentity => ListenerState::Setup(ListenerSetup::BuildAcceptor),
        ListenerSetup::BuildAcceptor => ListenerState::Setup(ListenerSetup::Bind),
        ListenerSetup::Bind => ListenerState::Setup(ListenerSetup::SetNonblocking),
        ListenerSetup::SetNonblocking => ListenerState::Setup(ListenerSetup::LocalAddress),
        ListenerSetup::LocalAddress => ListenerState::Setup(ListenerSetup::StartPool),
        ListenerSetup::StartPool => ListenerState::Accepting,
    }
}

/// Takes the outcome of the listener's awaited operation and moves on.
pub fn thread_tcp_listener_socket(state: ListenerState, event: ListenerEvent) -> (next:
    ListenerState)
    ensures
        next == listener_next(state, event),
{
    match state {
        ListenerState::Setup(step) => match event {
            ListenerEvent::Succeeded => listener_setup_done(step),
            _ => ListenerState::Failing,
        },
        ListenerState::Accepting => ListenerState::Checking {
            accepted: matches!(event, ListenerEvent::Accepted),
        },
        ListenerState::Checking { accepted } => match event {
            ListenerEvent::Shutdown(false) => {
                if accepted {
                    ListenerState::Dispatching
                } else {
                    ListenerState::Accepting
                }
            },
            _ => ListenerState::Draining,
        },
        ListenerState::Dispatching => ListenerState::Accepting,
        ListenerState::Draining => ListenerState::Stopped,
        ListenerState::Failing => ListenerState::Stopped,
        ListenerState::Stopped => ListenerState::Stopped,
    }
}

/// How many operations the listener carries out at most before it looks at
/// the shutdown flag again.
pub open spec fn listener_until_check(state: ListenerState) -> nat {
    match state {
        ListenerState::Dispatching => 2,
        ListenerState::Accepting => 1,
        _ => 0,
    }
}

/// A failed step of the setup is fatal: the shutdown flag is set next, then
/// the listener returns; it never accepts a connection.
pub proof fn lemma_listener_setup_failure_is_fatal(
    step: ListenerSetup,
    event: ListenerEvent,
    later: ListenerEvent,
)
    requires
        !(event is Succeeded),
    ensures
        listener_next(ListenerState::Setup(step), event) == ListenerState::Failing,
        listener_action(ListenerState::Failing) == ListenerAction::RaiseShutdown,
        listener_next(ListenerState::Failing, later) == ListenerState::Stopped,
{
}

/// The listener looks at the shutdown flag after every `accept`. Once it
/// sees the flag set it accepts and dispatches no more: it drains the
/// worker pool and then returns. A listener that has begun to accept
/// returns in no other way, so the pool is empty when it does.
pub proof fn lemma_listener_heeds_shutdown(state: ListenerState, event: ListenerEvent)
    ensures
        listener_until_check(state) > 0 ==> listener_until_check(listener_next(state, event))
            < listener_until_check(state),
        state is Checking && event == ListenerEvent::Shutdown(true) ==> listener_next(state, event)
            == ListenerState::Draining,
        listener_action(ListenerState::Draining) == ListenerAction::JoinPool,
        listener_next(ListenerState::Draining, event) == ListenerState::Stopped,
        listener_next(state, event) is Stopped ==> state is Draining || state is Failing || state
            is Stopped,
        listener_next(state, event) is Failing ==> state is Setup,
{
}

} // verus!

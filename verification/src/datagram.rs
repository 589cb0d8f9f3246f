//! The datagram transport: one socket, no connections, one payload per
//! datagram.
//!
//! The loop is a state machine. A state awaits the outcome of one
//! operation, which the caller carries out; the outcome is handed back as
//! an event. An event that does not answer the awaited operation counts as
//! that operation's failure.

use vstd::prelude::*;

use crate::decode::{decode, decoded};
use crate::record::{DecodeError, EnvironmentalRecord, RecordView};
use crate::schema::{Schema, SchemaView};
use crate::wire::{received, received_bytes};

verus! {

/// How long the loop sleeps where no datagram waits, in milliseconds.
pub const IDLE_SLEEP_MS: u64 = 100;

/// The steps that set the socket up, in their order.
#[derive(Clone, Copy, Debug, PartialEq, Eq)]
pub enum DatagramSetup {
    /// Bind the socket.
    Bind,
    /// Make `recv` return at once where no datagram waits.
    SetNonblocking,
}

/// What the loop has to do next.
#[derive(Clone, Copy, Debug, PartialEq, Eq)]
pub enum DatagramAction {
    Setup(DatagramSetup),
    /// Look at the shutdown flag.
    ObserveShutdown,
    /// Receive a datagram if one waits.
    Receive,
    /// Sleep for `IDLE_SLEEP_MS`.
    Sleep,
    /// Put the record that came with this step on the handoff queue.
    Forward,
    /// Drop the payload; it did not decode.
    Discard(DecodeError),
    /// Set the shutdown flag.
    RaiseShutdown,
    /// Return.
    Stop,
}

/// What the loop reports back.
#[derive(Clone, Copy, Debug, PartialEq, Eq)]
pub enum DatagramEvent {
    /// The operation was carried out.
    Succeeded,
    /// The operation failed.
    Failed,
    /// The shutdown flag was looked at and was set, or not.
    Shutdown(bool),
    /// A datagram put this many bytes into the buffer.
    Received(usize),
    /// No datagram waited.
    WouldBlock,
}

/// The state of the loop.
#[derive(Clone, Copy, Debug, PartialEq, Eq)]
pub enum DatagramState {
    Setup(DatagramSetup),
    /// The shutdown flag is looked at before each `recv`.
    Checking,
    Receiving,
    Sleeping,
    /// A record was decoded and is being forwarded.
    Sending,
    /// A payload did not decode and is being dropped.
    Discarding(DecodeError),
    /// A step of the setup failed.
    Failing,
    Stopped,
}

/// The state after a datagram of `count` bytes came into `buffer`. A
/// datagram longer than the buffer is cut to the bytes that were read.
pub open spec fn after_datagram(schema: SchemaView, buffer: Seq<u8>, count: usize) -> DatagramState {
    match decoded(schema, received(buffer, count)) {
        Ok(_) => DatagramState::Sending,
        Err(e) => DatagramState::Discarding(e),
    }
}

/// The state of the loop after an event.
///
/// A step of the setup that fails is fatal: the shutdown flag is set and the
/// loop returns. Before each `recv` the shutdown flag is looked at, and the
/// loop returns if it is set. Where no datagram waits the loop sleeps
/// briefly. A datagram is decoded, and forwarded or dropped; after that, and
/// after a `recv` that failed, the flag is looked at again.
pub open spec fn datagram_next(
    schema: SchemaView,
    state: DatagramState,
    event: DatagramEvent,
    buffer: Seq<u8>,
) -> DatagramState {
    match state {
        DatagramState::Setup(step) => match event {
            DatagramEvent::Succeeded => match step {
                DatagramSetup::Bind => DatagramState::Setup(DatagramSetup::SetNonblocking),
                DatagramSetup::SetNonblocking => DatagramState::Checking,
            },
            _ => DatagramState::Failing,
        },
        DatagramState::Checking => match event {
            DatagramEvent::Shutdown(false) => DatagramState::Receiving,
            _ => DatagramState::Stopped,
        },
        DatagramState::Receiving => match event {
            DatagramEvent::Received(count) => after_datagram(schema, buffer, count),
            DatagramEvent::WouldBlock => DatagramState::Sleeping,
            _ => DatagramState::Checking,
        },
        DatagramState::Sleeping => DatagramState::Checking,
        DatagramState::Sending => DatagramState::Checking,
        DatagramState::Discarding(_) => DatagramState::Checking,
        DatagramState::Failing => DatagramState::Stopped,
        DatagramState::Stopped => DatagramState::Stopped,
    }
}

/// The operation that a state awaits.
pub open spec fn datagram_action(state: DatagramState) -> DatagramAction {
    match state {
        DatagramState::Setup(step) => DatagramAction::Setup(step),
        DatagramState::Checking => DatagramAction::ObserveShutdown,
        DatagramState::Receiving => DatagramAction::Receive,
        DatagramState::Sleeping => DatagramAction::Sleep,
        DatagramState::Sending => DatagramAction::Forward,
        DatagramState::Discarding(e) => DatagramAction::Discard(e),
        DatagramState::Failing => DatagramAction::RaiseShutdown,
        DatagramState::Stopped => DatagramAction::Stop,
    }
}

/// The state in which the loop begins.
pub fn datagram_start() -> (state: DatagramState)
    ensures
        state == DatagramState::Setup(DatagramSetup::Bind),
{
    DatagramState::Setup(DatagramSetup::Bind)
}

/// The operation to carry out in a state.
pub fn datagram_pending(state: DatagramState) -> (action: DatagramAction)
    ensures
        action == datagram_action(state),
{
    match state {
        DatagramState::Setup(step) => DatagramAction::Setup(step),
        DatagramState::Checking => DatagramAction::ObserveShutdown,
        DatagramState::Receiving => DatagramAction::Receive,
        DatagramState::Sleeping => DatagramAction::Sleep,
        DatagramState::Sending => DatagramAction::Forward,
        DatagramState::Discarding(e) => DatagramAction::Discard(e),
        DatagramState::Failing => DatagramAction::RaiseShutdown,
        DatagramState::Stopped => DatagramAction::Stop,
    }
}

/// Takes the outcome of the awaited operation and moves on. `buffer` is the
/// buffer that the last `recv` filled; it is looked at only after a
/// datagram came. A record comes back exactly when the next state is
/// `Sending`: it is what the datagram decodes to, and it is the record to
/// forward.
pub fn thread_udp_socket(
    schema: &Schema,
    state: DatagramState,
    event: DatagramEvent,
    buffer: &[u8],
) -> (next: (DatagramState, Option<EnvironmentalRecord>))
    ensures
        next.0 == datagram_next(schema@, state, event, buffer@),
        next.1.is_some() == (next.0 is Sending),
        next.1 matches Some(record) ==> event matches DatagramEvent::Received(count) && decoded(
            schema@,
            received(buffer@, count),
        ) == Ok::<RecordView, DecodeError>(record@) && record.matches_schema(schema),
{
    match state {
        DatagramState::Setup(step) => match event {
            DatagramEvent::Succeeded => match step {
                DatagramSetup::Bind => (DatagramState::Setup(DatagramSetup::SetNonblocking), None),
                DatagramSetup::SetNonblocking => (DatagramState::Checking, None),
            },
            _ => (DatagramState::Failing, None),
        },
        DatagramState::Checking => match event {
            DatagramEvent::Shutdown(false) => (DatagramState::Receiving, None),
            _ => (DatagramState::Stopped, None),
        },
        DatagramState::Receiving => match event {
            DatagramEvent::Received(count) => match decode(schema, received_bytes(buffer, count)) {
                Ok(record) => (DatagramState::Sending, Some(record)),
                Err(e) => (DatagramState::Discarding(e), None),
            },
            DatagramEvent::WouldBlock => (DatagramState::Sleeping, None),
            _ => (DatagramState::Checking, None),
        },
        DatagramState::Sleeping => (DatagramState::Checking, None),
        DatagramState::Sending => (DatagramState::Checking, None),
        DatagramState::Discarding(_) => (DatagramState::Checking, None),
        DatagramState::Failing => (DatagramState::Stopped, None),
        DatagramState::Stopped => (DatagramState::Stopped, None),
    }
}

/// How many operations the loop carries out at most before it looks at the
/// shutdown flag again or returns.
pub open spec fn datagram_until_check(state: DatagramState) -> nat {
    match state {
        DatagramState::Receiving => 2,
        DatagramState::Sleeping => 1,
        DatagramState::Sending => 1,
        DatagramState::Discarding(_) => 1,
        DatagramState::Failing => 1,
        _ => 0,
    }
}

/// The loop looks at the shutdown flag before every `recv`, so at most two
/// operations lie between a `recv` and the next look. Once it sees the flag
/// set it returns at once. A datagram that does not decode is dropped and
/// the loop goes on.
pub proof fn lemma_datagram_heeds_shutdown(
    schema: SchemaView,
    state: DatagramState,
    event: DatagramEvent,
    buffer: Seq<u8>,
)
    ensures
        datagram_until_check(state) > 0 ==> datagram_until_check(
            datagram_next(schema, state, event, buffer),
        ) < datagram_until_check(state),
        datagram_next(schema, DatagramState::Checking, DatagramEvent::Shutdown(true), buffer)
            == DatagramState::Stopped,
        state is Discarding ==> datagram_next(schema, state, event, buffer)
            == DatagramState::Checking,
        datagram_next(schema, DatagramState::Checking, DatagramEvent::Shutdown(false), buffer)
            == DatagramState::Receiving,
{
}

} // verus!

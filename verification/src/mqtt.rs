//! The MQTT subscriber transport: a lasting connection to a broker and a
//! subscription on one topic.
//!
//! The subscriber is a state machine. A state awaits the outcome of one
//! operation, which the caller carries out; the outcome is handed back as
//! an event. An event that does not answer the awaited operation counts as
//! that operation's failure.

use vstd::prelude::*;
use vstd::string::*;

use crate::decode::{decode, decoded};
use crate::record::{DecodeError, EnvironmentalRecord, RecordView};
use crate::schema::{Schema, SchemaView};
use crate::text::{decimal, decimal_text, host_port, host_port_text};

verus! {

/// How long connecting to the broker may take, in milliseconds.
pub const CONNECT_TIMEOUT_MS: u64 = 4000;

/// How long one poll waits for a message, in milliseconds.
pub const POLL_TIMEOUT_MS: u64 = 100;

/// The files and passphrase of a TLS connection to the broker.
#[derive(Clone, Debug)]
pub struct MqttTlsParams {
    /// Path of the certificate authority file.
    pub ca_path: String,
    /// Path of the client certificate.
    pub cert_path: String,
    /// Path of the client key.
    pub key_path: String,
    /// The passphrase of the client key, if it has one.
    pub key_pass: Option<String>,
}

/// The parameters of the subscription.
#[derive(Clone, Debug)]
pub struct MqttParams {
    /// The address of the broker.
    pub address: String,
    /// The port of the broker.
    pub port: u32,
    /// Whether to connect over TLS.
    pub tls_enable: bool,
    /// The TLS parameters; needed where `tls_enable` is set.
    pub tls_params: Option<MqttTlsParams>,
    /// The topic that carries the readings.
    pub env_topic: String,
    /// The quality of service of the subscription.
    pub qos: u32,
}

impl MqttParams {
    /// The broker's address as a URI: scheme `ssl` over TLS and `tcp`
    /// otherwise, then the host and the port.
    pub open spec fn server_uri_text(&self) -> Seq<char> {
        (if self.tls_enable {
            "ssl://"@
        } else {
            "tcp://"@
        }) + host_port(self.address@, self.port as nat)
    }

    /// Builds the broker's URI.
    pub fn server_uri(&self) -> (r: String)
        ensures
            r@ == self.server_uri_text(),
    {
        let mut r = if self.tls_enable {
            String::from_str("ssl://")
        } else {
            String::from_str("tcp://")
        };
        let rest = host_port_text(self.address.as_str(), self.port);
        r.append(rest.as_str());
        r
    }
}

/// The client identifier: `dblogd-` and the seconds since the epoch at which
/// the client was made.
pub fn client_id(seconds: u64) -> (r: String)
    ensures
        r@ == "dblogd-"@ + decimal(seconds as nat),
{
    let mut r = String::from_str("dblogd-");
    let digits = decimal_text(seconds);
    r.append(digits.as_str());
    r
}

/// The steps that set the subscriber up, in their order. The TLS step is
/// left out where TLS is not enabled.
#[derive(Clone, Copy, Debug, PartialEq, Eq)]
pub enum MqttSetup {
    /// Read the clock, for the client identifier.
    ReadClock,
    /// Make the client.
    CreateClient,
    /// Give the client its TLS files and passphrase.
    ConfigureTls,
    /// Connect to the broker, within `CONNECT_TIMEOUT_MS`.
    Connect,
    /// Subscribe to the topic.
    Subscribe,
}

/// What the subscriber has to do next.
#[derive(Clone, Copy, Debug, PartialEq, Eq)]
pub enum MqttAction {
    Setup(MqttSetup),
    /// Look at the shutdown flag.
    ObserveShutdown,
    /// Wait for a message, for `POLL_TIMEOUT_MS` at most.
    Poll,
    /// Put the record that came with this step on the handoff queue.
    Forward,
    /// Drop the payload; it did not decode.
    Discard(DecodeError),
    /// Connect to the broker again.
    Reconnect,
    /// Disconnect from the broker.
    Disconnect,
    /// Set the shutdown flag.
    RaiseShutdown,
    /// Return.
    Stop,
}

/// What the subscriber reports back.
#[derive(Clone, Copy, Debug, PartialEq, Eq)]
pub enum MqttEvent {
    /// The operation was carried out.
    Succeeded,
    /// The operation failed.
    Failed,
    /// The shutdown flag was looked at and was set, or not.
    Shutdown(bool),
    /// A message came. `retained` says that the broker had kept it, and
    /// `on_topic` that it belongs to the subscription.
    Message { retained: bool, on_topic: bool },
    /// No message came in time.
    Idle,
    /// No message came, and the connection is gone.
    Dropped,
}

/// The state of the subscriber.
#[derive(Clone, Copy, Debug, PartialEq, Eq)]
pub enum MqttState {
    Setup(MqttSetup),
    /// The shutdown flag is looked at before each poll.
    Checking,
    Polling,
    /// A record was decoded and is being forwarded.
    Sending,
    /// A payload did not decode and is being dropped.
    Discarding(DecodeError),
    Reconnecting,
    /// The client disconnects; `fatal` says that it does so because the
    /// subscription failed.
    Disconnecting { fatal: bool },
    /// The setup or a reconnect failed.
    Failing,
    Stopped,
}

impl MqttParams {
    /// The state that follows a step of the setup that was carried out.
    /// TLS that is enabled without parameters is a failure of the setup.
    pub open spec fn after_setup(&self, step: MqttSetup) -> MqttState {
        match step {
            MqttSetup::ReadClock => MqttState::Setup(MqttSetup::CreateClient),
            MqttSetup::CreateClient => if !self.tls_enable {
                MqttState::Setup(MqttSetup::Connect)
            } else if self.tls_params is Some {
                MqttState::Setup(MqttSetup::ConfigureTls)
            } else {
                MqttState::Failing
            },
            MqttSetup::ConfigureTls => MqttState::Setup(MqttSetup::Connect),
            MqttSetup::Connect => MqttState::Setup(MqttSetup::Subscribe),
            MqttSetup::Subscribe => MqttState::Checking,
        }
    }

    fn setup_done(&self, step: MqttSetup) -> (next: MqttState)
        ensures
            next == self.after_setup(step),
    {
        match step {
            MqttSetup::ReadClock => MqttState::Setup(MqttSetup::CreateClient),
            MqttSetup::CreateClient => {
                if !self.tls_enable {
                    MqttState::Setup(MqttSetup::Connect)
                } else if self.tls_params.is_some() {
                    MqttState::Setup(MqttSetup::ConfigureTls)
                } else {
                    MqttState::Failing
                }
            },
            MqttSetup::ConfigureTls => MqttState::Setup(MqttSetup::Connect),
            MqttSetup::Connect => MqttState::Setup(MqttSetup::Subscribe),
            MqttSetup::Subscribe => MqttState::Checking,
        }
    }
}

/// The state after a message came. A retained message is passed over, and
/// so is one that does not belong to the subscription; any other is decoded.
pub open spec fn after_message(
    schema: SchemaView,
    retained: bool,
    on_topic: bool,
    payload: Seq<u8>,
) -> MqttState {
    if retained || !on_topic {
        MqttState::Checking
    } else {
        match decoded(schema, payload) {
            Ok(_) => MqttState::Sending,
            Err(e) => MqttState::Discarding(e),
        }
    }
}

/// The state of the subscriber after an event.
///
/// A step of the setup that fails is fatal: the shutdown flag is set and the
/// subscriber returns; where it was the subscription that failed, the client
/// disconnects first. Before each poll the shutdown flag is looked at; if
/// it is set the client disconnects and the subscriber returns. Where a
/// poll reports that the connection is gone, the client connects again
/// once, and a failure of that is fatal. After a message, and after a poll
/// that gave none, the flag is looked at again.
pub open spec fn mqtt_next(
    params: &MqttParams,
    schema: SchemaView,
    state: MqttState,
    event: MqttEvent,
    payload: Seq<u8>,
) -> MqttState {
    match state {
        MqttState::Setup(step) => match event {
            MqttEvent::Succeeded => params.after_setup(step),
            _ => if step is Subscribe {
                MqttState::Disconnecting { fatal: true }
            } else {
                MqttState::Failing
            },
        },
        MqttState::Checking => match event {
            MqttEvent::Shutdown(false) => MqttState::Polling,
            _ => MqttState::Disconnecting { fatal: false },
        },
        MqttState::Polling => match event {
            MqttEvent::Message { retained, on_topic } => after_message(
                schema,
                retained,
                on_topic,
                payload,
            ),
            MqttEvent::Dropped => MqttState::Reconnecting,
            _ => MqttState::Checking,
        },
        MqttState::Sending => MqttState::Checking,
        MqttState::Discarding(_) => MqttState::Checking,
        MqttState::Reconnecting => match event {
            MqttEvent::Succeeded => MqttState::Checking,
            _ => MqttState::Failing,
        },
        MqttState::Disconnecting { fatal } => if fatal {
            MqttState::Failing
        } else {
            MqttState::Stopped
        },
        MqttState::Failing => MqttState::Stopped,
        MqttState::Stopped => MqttState::Stopped,
    }
}

/// The operation that a state awaits.
pub open spec fn mqtt_action(state: MqttState) -> MqttAction {
    match state {
        MqttState::Setup(step) => MqttAction::Setup(step),
        MqttState::Checking => MqttAction::ObserveShutdown,
        MqttState::Polling => MqttAction::Poll,
        MqttState::Sending => MqttAction::Forward,
        MqttState::Discarding(e) => MqttAction::Discard(e),
        MqttState::Reconnecting => MqttAction::Reconnect,
        MqttState::Disconnecting { fatal } => MqttAction::Disconnect,
        MqttState::Failing => MqttAction::RaiseShutdown,
        MqttState::Stopped => MqttAction::Stop,
    }
}

/// The state in which the subscriber begins.
pub fn mqtt_start() -> (state: MqttState)
    ensures
        state == MqttState::Setup(MqttSetup::ReadClock),
{
    MqttState::Setup(MqttSetup::ReadClock)
}

/// The operation to carry out in a state.
pub fn mqtt_pending(state: MqttState) -> (action: MqttAction)
    ensures
        action == mqtt_action(state),
{
    match state {
        MqttState::Setup(step) => MqttAction::Setup(step),
        MqttState::Checking => MqttAction::ObserveShutdown,
        MqttState::Polling => MqttAction::Poll,
        MqttState::Sending => MqttAction::Forward,
        MqttState::Discarding(e) => MqttAction::Discard(e),
        MqttState::Reconnecting => MqttAction::Reconnect,
        MqttState::Disconnecting { fatal } => MqttAction::Disconnect,
        MqttState::Failing => MqttAction::RaiseShutdown,
        MqttState::Stopped => MqttAction::Stop,
    }
}

/// Takes the outcome of the awaited operation and moves on. `payload` is
/// the payload of the message that came; it is looked at only after a
/// message. A record comes back exactly when the next state is `Sending`:
/// it is what the payload decodes to, and it is the record to forward.
pub fn thread_mqtt(
    params: &MqttParams,
    schema: &Schema,
    state: MqttState,
    event: MqttEvent,
    payload: &[u8],
) -> (next: (MqttState, Option<EnvironmentalRecord>))
    ensures
        next.0 == mqtt_next(params, schema@, state, event, payload@),
        next.1.is_some() == (next.0 is Sending),
        next.1 matches Some(record) ==> decoded(schema@, payload@) == Ok::<
            RecordView,
            DecodeError,
        >(record@) && record.matches_schema(schema),
{
    match state {
        MqttState::Setup(step) => match event {
            MqttEvent::Succeeded => (params.setup_done(step), None),
            _ => match step {
                MqttSetup::Subscribe => (MqttState::Disconnecting { fatal: true }, None),
                _ => (MqttState::Failing, None),
            },
        },
        MqttState::Checking => match event {
            MqttEvent::Shutdown(false) => (MqttState::Polling, None),
            _ => (MqttState::Disconnecting { fatal: false }, None),
        },
        MqttState::Polling => match event {
            MqttEvent::Message { retained, on_topic } => {
                if retained || !on_topic {
                    (MqttState::Checking, None)
                } else {
                    match decode(schema, payload) {
                        Ok(record) => (MqttState::Sending, Some(record)),
                        Err(e) => (MqttState::Discarding(e), None),
                    }
                }
            },
            MqttEvent::Dropped => (MqttState::Reconnecting, None),
            _ => (MqttState::Checking, None),
        },
        MqttState::Sending => (MqttState::Checking, None),
        MqttState::Discarding(_) => (MqttState::Checking, None),
        MqttState::Reconnecting => match event {
            MqttEvent::Succeeded => (MqttState::Checking, None),
            _ => (MqttState::Failing, None),
        },
        MqttState::Disconnecting { fatal } => {
            if fatal {
                (MqttState::Failing, None)
            } else {
                (MqttState::Stopped, None)
            }
        },
        MqttState::Failing => (MqttState::Stopped, None),
        MqttState::Stopped => (MqttState::Stopped, None),
    }
}

/// How many operations the subscriber carries out at most before it looks
/// at the shutdown flag again or returns.
pub open spec fn mqtt_until_check(state: MqttState) -> nat {
    match state {
        MqttState::Polling => 3,
        MqttState::Reconnecting => 2,
        MqttState::Sending => 1,
        MqttState::Discarding(_) => 1,
        MqttState::Disconnecting { fatal } => if fatal {
            2
        } else {
            1
        },
        MqttState::Failing => 1,
        _ => 0,
    }
}

/// A retained message is never forwarded, whatever it holds.
pub proof fn lemma_retained_is_ignored(
    params: &MqttParams,
    schema: SchemaView,
    on_topic: bool,
    payload: Seq<u8>,
)
    ensures
        mqtt_next(
            params,
            schema,
            MqttState::Polling,
            MqttEvent::Message { retained: true, on_topic },
            payload,
        ) == MqttState::Checking,
{
}

/// The subscriber looks at the shutdown flag before every poll, so at most
/// three operations lie between a poll and the next look. Once it sees the
/// flag set it polls no more: it disconnects and returns. A payload that
/// does not decode is dropped and the subscription goes on.
pub proof fn lemma_mqtt_heeds_shutdown(
    params: &MqttParams,
    schema: SchemaView,
    state: MqttState,
    event: MqttEvent,
    payload: Seq<u8>,
)
    ensures
        mqtt_until_check(state) > 0 ==> mqtt_until_check(
            mqtt_next(params, schema, state, event, payload),
        ) < mqtt_until_check(state),
        mqtt_next(params, schema, MqttState::Checking, MqttEvent::Shutdown(true), payload) == (
        MqttState::Disconnecting { fatal: false }),
        mqtt_next(params, schema, MqttState::Disconnecting { fatal: false }, event, payload)
            == MqttState::Stopped,
        state is Discarding ==> mqtt_next(params, schema, state, event, payload)
            == MqttState::Checking,
{
}

/// A failure of the setup or of a reconnect is fatal: the shutdown flag is
/// set before the subscriber returns, and it polls no more.
pub proof fn lemma_mqtt_failure_is_fatal(
    params: &MqttParams,
    schema: SchemaView,
    step: MqttSetup,
    event: MqttEvent,
    later: MqttEvent,
    payload: Seq<u8>,
)
    requires
        !(event is Succeeded),
    ensures
        !(step is Subscribe) ==> mqtt_next(params, schema, MqttState::Setup(step), event, payload)
            == MqttState::Failing,
        mqtt_next(params, schema, MqttState::Setup(MqttSetup::Subscribe), event, payload) == (
        MqttState::Disconnecting { fatal: true }),
        mqtt_next(params, schema, MqttState::Disconnecting { fatal: true }, later, payload)
            == MqttState::Failing,
        mqtt_next(params, schema, MqttState::Reconnecting, event, payload) == MqttState::Failing,
        mqtt_action(MqttState::Failing) == MqttAction::RaiseShutdown,
        mqtt_next(params, schema, MqttState::Failing, later, payload) == MqttState::Stopped,
        params.tls_enable && params.tls_params is None ==> mqtt_next(
            params,
            schema,
            MqttState::Setup(MqttSetup::CreateClient),
            MqttEvent::Succeeded,
            payload,
        ) == MqttState::Failing,
{
}

} // verus!

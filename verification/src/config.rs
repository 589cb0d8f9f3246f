//! The configuration of the daemon.

use vstd::prelude::*;
use vstd::string::*;

use crate::database::DatabaseParameters;
use crate::mqtt::MqttParams;
use crate::schema::{
    environmental_fields, environmental_schema, Quantity, Schema, TimestampFormat,
};
use crate::socket::{SocketParameters, TlsSocketParameters};

verus! {

/// The transport that delivers the readings.
#[derive(Clone, Copy, Debug, PartialEq, Eq)]
pub enum TransportKind {
    /// A subscription at an MQTT broker.
    Mqtt,
    /// A listening TCP socket secured with TLS.
    TlsSocket,
    /// A datagram socket.
    Datagram,
}

/// The configuration of the daemon.
#[derive(Clone, Debug)]
pub struct Configuration {
    /// Parameters of the persistence worker.
    pub database_connection_parameters: DatabaseParameters,
    /// Parameters of the MQTT subscriber.
    pub mqtt_params: MqttParams,
    /// The transport to run.
    pub transport: TransportKind,
    /// Parameters of the TLS listener; needed where it is the transport.
    pub tls_socket_params: Option<TlsSocketParameters>,
    /// Parameters of the datagram socket; needed where it is the transport.
    pub socket_params: Option<SocketParameters>,
    /// The folder that the log files are written to.
    pub logging_folder: String,
    /// How payloads write the time of a reading.
    pub timestamps: TimestampFormat,
    /// The quantities of a reading; where none is given, those of the full
    /// environmental schema hold.
    pub quantities: Vec<Quantity>,
}

impl Configuration {
    /// Whether the configuration holds the parameters of the transport that
    /// it asks for. One that does not is refused before any thread starts.
    pub fn transport_configured(&self) -> (r: bool)
        ensures
            r == match self.transport {
                TransportKind::Mqtt => true,
                TransportKind::TlsSocket => self.tls_socket_params is Some,
                TransportKind::Datagram => self.socket_params is Some,
            },
    {
        match self.transport {
            TransportKind::Mqtt => true,
            TransportKind::TlsSocket => self.tls_socket_params.is_some(),
            TransportKind::Datagram => self.socket_params.is_some(),
        }
    }

    /// The schema that the configuration asks for: its timestamp format,
    /// and its quantities or, where it names none, those of the full
    /// environmental schema.
    pub fn schema(&self) -> (s: Schema)
        ensures
            s.wf(),
            s.timestamps == self.timestamps,
            self.quantities@.len() == 0 ==> s.fields() == environmental_fields(),
            self.quantities@.len() > 0 ==> s.quantities@.len() == self.quantities@.len(),
            self.quantities@.len() > 0 ==> forall|i: int|
                0 <= i < self.quantities@.len() ==> {
                    &&& (#[trigger] s.quantities@[i]).field@ == self.quantities@[i].field@
                    &&& s.quantities@[i].table@ == self.quantities@[i].table@
                    &&& s.quantities@[i].column@ == self.quantities@[i].column@
                },
    {
        if self.quantities.len() == 0 {
            let full = environmental_schema();
            return Schema { timestamps: self.timestamps, quantities: full.quantities };
        }
        let mut quantities: Vec<Quantity> = Vec::new();
        let mut i: usize = 0;
        while i < self.quantities.len()
            invariant
                i <= self.quantities@.len(),
                quantities@.len() == i,
                forall|j: int|
                    0 <= j < i ==> {
                        &&& (#[trigger] quantities@[j]).field@ == self.quantities@[j].field@
                        &&& quantities@[j].table@ == self.quantities@[j].table@
                        &&& quantities@[j].column@ == self.quantities@[j].column@
                    },
            decreases self.quantities@.len() - i,
        {
            let q = &self.quantities[i];
            quantities.push(
                Quantity {
                    field: q.field.clone(),
                    table: q.table.clone(),
                    column: q.column.clone(),
                },
            );
            i += 1;
        }
        Schema { timestamps: self.timestamps, quantities }
    }

    /// The path of the current log file: `dblogd.log` in the logging folder.
    pub fn log_file(&self) -> (r: String)
        ensures
            r@ == self.logging_folder@ + "/dblogd.log"@,
    {
        let mut r = self.logging_folder.clone();
        r.append("/dblogd.log");
        r
    }

    /// The pattern of the rolled log files: `dblogd.{}.log` in the logging
    /// folder, where `{}` stands for the number of the file.
    pub fn log_file_pattern(&self) -> (r: String)
        ensures
            r@ == self.logging_folder@ + "/dblogd.{}.log"@,
    {
        let mut r = self.logging_folder.clone();
        r.append("/dblogd.{}.log");
        r
    }
}

} // verus!

use dblogd::config::{Configuration, TransportKind};
use dblogd::database::DatabaseParameters;
use dblogd::mqtt::{client_id, MqttParams, MqttTlsParams};
use dblogd::schema::{Quantity, TimestampFormat};
use dblogd::socket::{SocketParameters, TlsSocketParameters};
use dblogd::startup::{exit_after_join, exit_code, Exit};
use dblogd::text::{decimal_text, host_port_text};

fn database() -> DatabaseParameters {
    DatabaseParameters {
        hostname: "db.local".to_string(),
        port: 5432,
        username: "logger".to_string(),
        password: "pw".to_string(),
        database: "readings".to_string(),
        tls_enable: true,
        server_ca_path: "/etc/ca.pem".to_string(),
        client_cert_path: "/etc/cert.pem".to_string(),
        client_key_path: "/etc/key.pem".to_string(),
    }
}

fn mqtt(tls_enable: bool) -> MqttParams {
    MqttParams {
        address: "broker.local".to_string(),
        port: 8883,
        tls_enable,
        tls_params: None,
        env_topic: "env".to_string(),
        qos: 1,
    }
}

#[test]
fn decimal_numerals() {
    assert_eq!(decimal_text(0), "0");
    assert_eq!(decimal_text(7), "7");
    assert_eq!(decimal_text(10), "10");
    assert_eq!(decimal_text(1700000000), "1700000000");
    assert_eq!(decimal_text(u64::MAX), "18446744073709551615");
}

#[test]
fn host_and_port() {
    assert_eq!(host_port_text("0.0.0.0", 8080), "0.0.0.0:8080");
    assert_eq!(host_port_text("", 0), ":0");
    assert_eq!(host_port_text("::1", u32::MAX), "::1:4294967295");
}

#[test]
fn bind_address_of_a_socket() {
    let params = TlsSocketParameters {
        socket_params: SocketParameters { address: "127.0.0.1".to_string(), port: 4433 },
        pkcs12_identity_file: "/etc/identity.p12".to_string(),
        pkcs12_file_password: "pw".to_string(),
    };
    assert_eq!(params.socket_params.bind_address(), "127.0.0.1:4433");
}

#[test]
fn connection_string_of_the_database() {
    assert_eq!(
        database().connection_string(),
        "user=logger password=pw host=db.local port=5432 dbname=readings application_name=dblogd"
    );
}

#[test]
fn broker_uri_and_client_id() {
    assert_eq!(mqtt(true).server_uri(), "ssl://broker.local:8883");
    assert_eq!(mqtt(false).server_uri(), "tcp://broker.local:8883");
    assert_eq!(client_id(1700000000), "dblogd-1700000000");
    assert_eq!(client_id(0), "dblogd-0");
}

#[test]
fn log_files_of_the_configuration() {
    let configuration = Configuration {
        database_connection_parameters: database(),
        mqtt_params: MqttParams {
            tls_params: Some(MqttTlsParams {
                ca_path: "ca".to_string(),
                cert_path: "cert".to_string(),
                key_path: "key".to_string(),
                key_pass: None,
            }),
            ..mqtt(true)
        },
        transport: TransportKind::Mqtt,
        tls_socket_params: None,
        socket_params: None,
        logging_folder: "/var/log/dblogd".to_string(),
        timestamps: TimestampFormat::Rfc3339,
        quantities: vec![],
    };
    assert_eq!(configuration.log_file(), "/var/log/dblogd/dblogd.log");
    assert_eq!(configuration.log_file_pattern(), "/var/log/dblogd/dblogd.{}.log");
    assert_eq!(configuration.schema().len(), 7);
    assert_eq!(configuration.schema().timestamps, TimestampFormat::Rfc3339);
    let configured = Configuration {
        quantities: vec![Quantity {
            field: "temperature".to_string(),
            table: "temperature".to_string(),
            column: "celsius".to_string(),
        }],
        ..configuration
    };
    let schema = configured.schema();
    assert!(configured.transport_configured());
    let by_socket = Configuration { transport: TransportKind::TlsSocket, ..configured.clone() };
    assert!(!by_socket.transport_configured());
    let by_datagram = Configuration {
        transport: TransportKind::Datagram,
        socket_params: Some(SocketParameters { address: "::".to_string(), port: 9 }),
        ..configured.clone()
    };
    assert!(by_datagram.transport_configured());
    assert_eq!(schema.len(), 1);
    assert_eq!(schema.quantities[0].field, "temperature");
    assert_eq!(schema.quantities[0].table, "temperature");
    assert_eq!(schema.quantities[0].column, "celsius");
}

#[test]
fn exit_codes() {
    assert_eq!(exit_code(Exit::Orderly), 0);
    assert_eq!(exit_code(Exit::LogFileUnavailable), 101);
    assert_eq!(exit_code(Exit::LogConfigRefused), 102);
    assert_eq!(exit_code(Exit::LoggerUnavailable), 103);
    assert_eq!(exit_code(Exit::ConfigNotNamed), 104);
    assert_eq!(exit_code(Exit::ConfigUnreadable), 105);
    assert_eq!(exit_code(Exit::ConfigUnparsable), 106);
    assert_eq!(exit_code(Exit::TransportNotSpawned), 201);
    assert_eq!(exit_code(Exit::PersistenceNotSpawned), 202);
    assert_eq!(exit_code(Exit::JoinFailed), 301);
    assert_eq!(exit_after_join(true, true), Exit::Orderly);
    assert_eq!(exit_after_join(false, true), Exit::JoinFailed);
    assert_eq!(exit_after_join(true, false), Exit::JoinFailed);
}

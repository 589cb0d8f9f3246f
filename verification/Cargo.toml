[package]
name = "dblogd"
version = "0.1.0"
edition = "2021"
publish = false

[dependencies]
chrono = "=0.4.45"
clap = "=2.34.0"
ctrlc = "=3.5.2"
log = "=0.4.34"
log4rs = "=1.4.0"
mosquitto-client = "=0.1.5"
native-tls = "=0.2.18"
openssl = "=0.10.81"
postgres = { version = "=0.19.14", features = ["with-chrono-0_4"] }
postgres-openssl = "=0.5.3"
serde = { version = "=1.0.229", features = ["derive"] }
serde_json = "=1.0.154"
serde_yaml = "=0.8.26"
threadpool = "=1.8.1"

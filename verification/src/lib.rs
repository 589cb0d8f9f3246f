//! Decision logic of a sensor-logging daemon: payload decoding, the handoff
//! queue, and the state machines that drive the transports and the
//! persistence worker.

pub mod channel;
pub mod config;
pub mod database;
pub mod datagram;
pub mod decode;
pub mod json;
pub mod mqtt;
pub mod record;
pub mod schema;
pub mod socket;
pub mod startup;
pub mod text;
pub mod timestamp;
pub mod wire;

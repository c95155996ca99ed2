//! The decision core of an MQTT client for small devices.
//!
//! [`MqttClient`] holds the connection state, the packet identifiers and the
//! keep-alive clock of one client. It performs no input or output of its own:
//! an operation is begun by a method such as [`MqttClient::publish`], which
//! hands out the packet to send, and is then carried on by
//! [`MqttClient::step`], which takes what the transport and the packet codec
//! reported and answers with what to do next, until the operation is done.

pub mod client;
pub mod error;
pub mod laws;
pub mod machine;
pub mod options;
pub mod packet;
pub mod storage;
pub mod time;
pub mod transport;

pub use client::MqttClient;
pub use error::{MqttError, ProtocolError};
pub use machine::{Action, Awaiting, ConnectionState, Event, MqttEvent, Pending, Request};
pub use options::{LastWill, MqttOptions, MqttVersion};
pub use packet::{
    ConnAck, Connect, MqttPacket, PingReq, PubAck, Publish, QoS, SubAck, Subscribe,
};
pub use time::Duration;
pub use transport::{read_outcome, write_outcome, ErrorPlaceHolder, ReadRace, TransportError};

//! The packets that the client sends and those that it reads, as values.

use crate::options::LastWill;
use vstd::prelude::*;

verus! {

/// Quality of service of a message.
#[derive(Debug, Clone, Copy, PartialEq, Eq, Structural)]
pub enum QoS {
    AtMostOnce,
    AtLeastOnce,
    ExactlyOnce,
}

/// CONNECT: opens a session with the broker.
#[derive(Debug, Clone, Copy)]
pub struct Connect<'a> {
    pub client_id: &'a str,
    /// Keep-alive interval in seconds.
    pub keep_alive: u16,
    pub clean_session: bool,
    pub username: Option<&'a str>,
    pub password: Option<&'a [u8]>,
    pub will: Option<LastWill<'a>>,
}

impl<'a> Connect<'a> {
    /// A CONNECT packet with optional credentials and an optional will.
    pub fn with_credentials(
        client_id: &'a str,
        keep_alive: u16,
        clean_session: bool,
        username: Option<&'a str>,
        password: Option<&'a [u8]>,
        will: Option<LastWill<'a>>,
    ) -> (packet: Self)
        ensures
            packet == (Connect { client_id, keep_alive, clean_session, username, password, will }),
    {
        Connect { client_id, keep_alive, clean_session, username, password, will }
    }
}

/// PUBLISH: a message on a topic, in either direction.
#[derive(Debug, Clone, Copy, PartialEq, Eq)]
pub struct Publish<'a> {
    pub topic: &'a str,
    pub qos: QoS,
    pub retain: bool,
    pub payload: &'a [u8],
    /// Set exactly where the quality of service asks for an acknowledgement.
    pub packet_id: Option<u16>,
    /// The property section of a version 5 message, as it stands in the packet;
    /// none where the message has no properties.
    pub properties: Option<&'a [u8]>,
}

/// SUBSCRIBE: asks for the messages of one topic.
#[derive(Debug, Clone, Copy, PartialEq, Eq)]
pub struct Subscribe<'a> {
    pub packet_id: u16,
    pub topic: &'a str,
    pub qos: QoS,
}

impl<'a> Subscribe<'a> {
    /// A SUBSCRIBE packet for one topic.
    pub fn new(packet_id: u16, topic: &'a str, qos: QoS) -> (packet: Self)
        ensures
            packet == (Subscribe { packet_id, topic, qos }),
    {
        Subscribe { packet_id, topic, qos }
    }
}

/// PINGREQ: tells the broker that the client is alive.
#[derive(Debug, Clone, Copy, PartialEq, Eq)]
pub struct PingReq;

/// CONNACK: the broker's answer to CONNECT.
#[derive(Debug, Clone, Copy, PartialEq, Eq)]
pub struct ConnAck {
    pub session_present: bool,
    /// Zero where the connection was accepted.
    pub reason_code: u8,
}

/// PUBACK: the broker's answer to a PUBLISH that asked for one.
#[derive(Debug, Clone, Copy, PartialEq, Eq)]
pub struct PubAck {
    pub packet_id: u16,
}

/// SUBACK: the broker's answer to SUBSCRIBE.
#[derive(Debug, Clone, Copy, PartialEq, Eq)]
pub struct SubAck<'p> {
    pub packet_id: u16,
    /// One code for each topic asked for; from 0x80 on it is a failure.
    pub reason_codes: &'p [u8],
}

/// A packet from the broker. What it borrows lies in the receive buffer.
#[derive(Debug, Clone, Copy, PartialEq, Eq)]
pub enum MqttPacket<'p> {
    ConnAck(ConnAck),
    PubAck(PubAck),
    SubAck(SubAck<'p>),
    PingResp,
    Publish(Publish<'p>),
    /// Any other packet. No operation of the client goes on with one.
    Other,
}

} // verus!

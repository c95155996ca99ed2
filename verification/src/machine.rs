//! The states of an operation, what moves it on, and what it asks for next.

use crate::error;
use crate::error::{MqttError, ProtocolError};
use crate::options::{OptionsModel, WillModel};
use crate::packet::{MqttPacket, PingReq, Publish, QoS, SubAck, Subscribe};
use crate::time::Duration;
use crate::transport::ErrorPlaceHolder;
use vstd::prelude::*;

verus! {

/// Maximum number of receive attempts when waiting for PUBACK/SUBACK.
/// Skips interleaved packets (PingResp, Publish). Prevents infinite loop on broken connection.
pub const MAX_RECV_ATTEMPTS: usize = 16;

/// Represents the current connection state of the client.
#[derive(Debug, Clone, Copy, PartialEq, Eq, Structural)]
pub enum ConnectionState {
    Disconnected,
    Connecting,
    Connected,
}

/// Represents an event received from the MQTT broker. It borrows from the
/// receive buffer.
#[derive(Debug, Clone, Copy, PartialEq, Eq)]
pub enum MqttEvent<'p> {
    Publish(Publish<'p>),
}

/// A packet on its way out.
#[derive(Debug, Clone, Copy, PartialEq, Eq)]
pub enum Request {
    Connect,
    /// A message with this quality of service.
    Publish(QoS),
    /// A subscription under this packet identifier.
    Subscribe(u16),
    Ping,
}

/// The packet that an operation waits for.
#[derive(Debug, Clone, Copy, PartialEq, Eq)]
pub enum Awaiting {
    ConnAck,
    /// Any PUBACK, with this many receive attempts left, the present one counted.
    PubAck { attempts: usize },
    /// The SUBACK of this identifier, with attempts counted in the same way.
    SubAck { packet_id: u16, attempts: usize },
    /// Whatever the broker sends of its own accord.
    Incoming,
}

/// The step that an operation has asked for and not yet heard back from.
#[derive(Debug, Clone, Copy, PartialEq, Eq)]
pub enum Pending {
    /// No operation is under way.
    Idle,
    /// The packet is to be encoded into the transmit buffer.
    Encode(Request),
    /// The encoded packet is to be sent.
    Send(Request),
    /// Bytes are to be received into the receive buffer.
    Receive(Awaiting),
    /// The received bytes are to be decoded.
    Decode(Awaiting),
}

/// What came of a step, over a transport whose errors are `E`.
#[derive(Debug, PartialEq, Eq)]
pub enum Event<'p, E> {
    /// The packet takes this many bytes of the transmit buffer, or cannot be encoded.
    /// An encoder has no transport, so its error is never one of the transport.
    Encoded(Result<usize, MqttError<ErrorPlaceHolder>>),
    /// The bytes went out, or the transport failed.
    Sent(Result<(), E>),
    /// This many bytes came in, or the transport failed.
    Received(Result<usize, E>),
    /// Nothing came in within the time that [`crate::MqttClient::poll`] allowed.
    TimerFired,
    /// The packet that the received bytes hold, nothing, or a decoding error.
    Decoded(Result<Option<MqttPacket<'p>>, MqttError<E>>),
}

/// What to do next.
#[derive(Debug, PartialEq, Eq)]
pub enum Action<'p, E> {
    /// Encode a PINGREQ into the transmit buffer.
    Encode(PingReq),
    /// Send this many bytes of the transmit buffer.
    Send(usize),
    /// Receive into the receive buffer.
    Receive,
    /// Decode this many bytes of the receive buffer.
    Decode(usize),
    /// The operation is over. Only a poll ends with an event.
    Done(Result<Option<MqttEvent<'p>>, MqttError<E>>),
}

/// The whole state of a client, as contents alone.
pub struct ClientModel {
    pub options: OptionsModel,
    pub state: ConnectionState,
    /// Clock reading, in ticks, of the last transmission that counts.
    pub last_tx_time: u64,
    /// The packet identifier given out last.
    pub next_packet_id: u16,
    /// The will that was set on the client itself.
    pub runtime_will: Option<WillModel>,
    pub pending: Pending,
}

impl ClientModel {
    /// The will that the next CONNECT carries: the one set on the client, or
    /// else the one of its options.
    pub open spec fn effective_will(self) -> Option<WillModel> {
        if self.runtime_will is Some {
            self.runtime_will
        } else {
            self.options.will
        }
    }

    /// What holds of a client at all times: identifiers are never zero, an
    /// operation is under way only in the connection state that it needs, and
    /// the receive attempts stay within their limit.
    pub open spec fn wf(self) -> bool {
        &&& self.next_packet_id != 0
        &&& match self.pending {
            Pending::Idle => true,
            Pending::Encode(request) | Pending::Send(request) => self.state == request_state(
                request,
            ),
            Pending::Receive(awaiting) | Pending::Decode(awaiting) => {
                &&& self.state == awaiting_state(awaiting)
                &&& attempts_in_range(awaiting)
            },
        }
    }
}

/// The connection state in which a request is made.
pub open spec fn request_state(request: Request) -> ConnectionState {
    if request is Connect {
        ConnectionState::Connecting
    } else {
        ConnectionState::Connected
    }
}

/// The connection state in which a packet is waited for.
pub open spec fn awaiting_state(awaiting: Awaiting) -> ConnectionState {
    if awaiting is ConnAck {
        ConnectionState::Connecting
    } else {
        ConnectionState::Connected
    }
}

/// The receive attempts left of a wait for an acknowledgement.
pub open spec fn attempts_in_range(awaiting: Awaiting) -> bool {
    match awaiting {
        Awaiting::PubAck { attempts } => 1 <= attempts <= MAX_RECV_ATTEMPTS,
        Awaiting::SubAck { packet_id, attempts } => 1 <= attempts <= MAX_RECV_ATTEMPTS,
        _ => true,
    }
}

/// The packet identifier that follows another: one more, and from the last one
/// on to 1, since 0 is no identifier.
pub open spec fn id_after(id: u16) -> u16 {
    if id == u16::MAX {
        1
    } else {
        (id + 1) as u16
    }
}

/// The identifier that a message with this quality of service gets.
pub open spec fn publish_id(client: ClientModel, qos: QoS) -> Option<u16> {
    if qos == QoS::AtMostOnce {
        None
    } else {
        Some(id_after(client.next_packet_id))
    }
}

/// A client that has begun to connect.
pub open spec fn connect_begun(client: ClientModel) -> ClientModel {
    ClientModel {
        state: ConnectionState::Connecting,
        pending: Pending::Encode(Request::Connect),
        ..client
    }
}

/// The PUBLISH packet and the client that has begun to send it, or the refusal
/// of a client that is not connected.
pub open spec fn publish_begun<'m, E>(
    client: ClientModel,
    topic: &'m str,
    payload: &'m [u8],
    qos: QoS,
    retain: bool,
) -> Result<(Publish<'m>, ClientModel), MqttError<E>> {
    if client.state != ConnectionState::Connected {
        Err(MqttError::NotConnected)
    } else {
        let packet_id = publish_id(client, qos);
        Ok(
            (
                Publish { topic, qos, retain, payload, packet_id, properties: None },
                ClientModel {
                    next_packet_id: match packet_id {
                        Some(id) => id,
                        None => client.next_packet_id,
                    },
                    pending: Pending::Encode(Request::Publish(qos)),
                    ..client
                },
            ),
        )
    }
}

/// The SUBSCRIBE packet and the client that has begun to send it, or the refusal
/// of a client that is not connected.
pub open spec fn subscribe_begun<'m, E>(client: ClientModel, topic: &'m str, qos: QoS) -> Result<
    (Subscribe<'m>, ClientModel),
    MqttError<E>,
> {
    if client.state != ConnectionState::Connected {
        Err(MqttError::NotConnected)
    } else {
        let packet_id = id_after(client.next_packet_id);
        Ok(
            (
                Subscribe { packet_id, topic, qos },
                ClientModel {
                    next_packet_id: packet_id,
                    pending: Pending::Encode(Request::Subscribe(packet_id)),
                    ..client
                },
            ),
        )
    }
}

/// The time for which a poll may wait, and the client that has begun to poll, or
/// the refusal of a client that is not connected.
pub open spec fn poll_begun<E>(client: ClientModel, now: u64) -> Result<
    (Duration, ClientModel),
    MqttError<E>,
> {
    if client.state != ConnectionState::Connected {
        Err(MqttError::NotConnected)
    } else {
        Ok(
            (
                time_to_ping(client, now),
                ClientModel { pending: Pending::Receive(Awaiting::Incoming), ..client },
            ),
        )
    }
}

/// The time from `now` until a keep-alive interval has gone by since the last
/// transmission; none where it has gone by already.
pub open spec fn time_to_ping(client: ClientModel, now: u64) -> Duration {
    let due = client.last_tx_time + client.options.keep_alive.ticks;
    Duration {
        ticks: if now < due {
            (due - now) as u64
        } else {
            0
        },
    }
}

/// The error of a reply that an operation cannot go on with.
pub open spec fn invalid_response<E>() -> MqttError<E> {
    MqttError::Protocol(ProtocolError::InvalidResponse)
}

/// Packets that a wait for an acknowledgement passes over.
pub open spec fn passed_over(packet: MqttPacket) -> bool {
    packet is PingResp || packet is Publish
}

/// A SUBACK that grants the subscription made under an identifier: it names the
/// identifier, and its first code is there and is no failure.
pub open spec fn grants(suback: SubAck, packet_id: u16) -> bool {
    &&& suback.packet_id == packet_id
    &&& suback.reason_codes@.len() > 0
    &&& suback.reason_codes@[0] < 0x80
}

/// A packet that ends the wait for an acknowledgement well. A PUBACK does so
/// whatever identifier it names.
pub open spec fn acknowledges(awaiting: Awaiting, packet: MqttPacket) -> bool {
    match awaiting {
        Awaiting::PubAck { attempts } => packet is PubAck,
        Awaiting::SubAck { packet_id, attempts } => {
            packet matches MqttPacket::SubAck(suback) && grants(suback, packet_id)
        },
        _ => false,
    }
}

/// The same wait for an acknowledgement with one attempt fewer, while there is one.
pub open spec fn next_attempt(awaiting: Awaiting) -> Option<Awaiting> {
    match awaiting {
        Awaiting::PubAck { attempts } if attempts > 1 => Some(
            Awaiting::PubAck { attempts: (attempts - 1) as usize },
        ),
        Awaiting::SubAck { packet_id, attempts } if attempts > 1 => Some(
            Awaiting::SubAck { packet_id, attempts: (attempts - 1) as usize },
        ),
        _ => None,
    }
}

/// The end of an operation: nothing is pending any more.
pub open spec fn done<'p, E>(
    client: ClientModel,
    result: Result<Option<MqttEvent<'p>>, MqttError<E>>,
) -> (ClientModel, Action<'p, E>) {
    (ClientModel { pending: Pending::Idle, ..client }, Action::Done(result))
}

/// An operation that goes on.
pub open spec fn goes_on<'p, E>(
    client: ClientModel,
    pending: Pending,
    action: Action<'p, E>,
) -> (ClientModel, Action<'p, E>) {
    (ClientModel { pending, ..client }, action)
}

/// What follows the transmission of a request at the time `now`. A CONNECT does
/// not count as a transmission yet: the clock starts when it is accepted.
pub open spec fn after_sent<'p, E>(client: ClientModel, request: Request, now: u64) -> (
    ClientModel,
    Action<'p, E>,
) {
    let sent = ClientModel { last_tx_time: now, ..client };
    match request {
        Request::Connect => goes_on(client, Pending::Receive(Awaiting::ConnAck), Action::Receive),
        Request::Publish(qos) => if qos == QoS::AtMostOnce {
            done(sent, Ok(None))
        } else {
            goes_on(
                sent,
                Pending::Receive(Awaiting::PubAck { attempts: MAX_RECV_ATTEMPTS }),
                Action::Receive,
            )
        },
        Request::Subscribe(packet_id) => goes_on(
            sent,
            Pending::Receive(Awaiting::SubAck { packet_id, attempts: MAX_RECV_ATTEMPTS }),
            Action::Receive,
        ),
        Request::Ping => done(sent, Ok(None)),
    }
}

/// What follows the arrival of a packet at the time `now`.
pub open spec fn after_packet<'p, E>(
    client: ClientModel,
    awaiting: Awaiting,
    packet: MqttPacket<'p>,
    now: u64,
) -> (ClientModel, Action<'p, E>) {
    match awaiting {
        Awaiting::ConnAck => match packet {
            MqttPacket::ConnAck(connack) if connack.reason_code == 0 => done(
                ClientModel { state: ConnectionState::Connected, last_tx_time: now, ..client },
                Ok(None),
            ),
            MqttPacket::ConnAck(connack) => done(
                ClientModel { state: ConnectionState::Disconnected, ..client },
                Err(MqttError::ConnectionRefused(connack.reason_code)),
            ),
            _ => done(
                ClientModel { state: ConnectionState::Disconnected, ..client },
                Err(invalid_response()),
            ),
        },
        Awaiting::Incoming => match packet {
            MqttPacket::Publish(publish) => done(client, Ok(Some(MqttEvent::Publish(publish)))),
            _ => done(client, Ok(None)),
        },
        _ => if passed_over(packet) {
            match next_attempt(awaiting) {
                Some(next) => goes_on(client, Pending::Receive(next), Action::Receive),
                None => done(client, Err(invalid_response())),
            }
        } else if acknowledges(awaiting, packet) {
            done(client, Ok(None))
        } else {
            done(client, Err(invalid_response()))
        },
    }
}

/// The transitions of a client: what it becomes and asks for when, at the time
/// `now`, it hears of an event. There is none where the event does not answer
/// the pending step.
pub open spec fn transition<'p, E>(client: ClientModel, event: Event<'p, E>, now: u64) -> Option<
    (ClientModel, Action<'p, E>),
> {
    match (client.pending, event) {
        (Pending::Encode(request), Event::Encoded(Ok(len))) => Some(
            goes_on(client, Pending::Send(request), Action::Send(len)),
        ),
        (Pending::Encode(_), Event::Encoded(Err(e))) => match error::cast(e) {
            Some(cast) => Some(done(client, Err(cast))),
            None => None,
        },
        (Pending::Send(request), Event::Sent(Ok(()))) => Some(after_sent(client, request, now)),
        (Pending::Send(_), Event::Sent(Err(e))) => Some(done(client, Err(MqttError::Transport(e)))),
        (Pending::Receive(Awaiting::Incoming), Event::TimerFired) => Some(
            if client.state == ConnectionState::Connected {
                goes_on(client, Pending::Encode(Request::Ping), Action::Encode(PingReq))
            } else {
                done(client, Err(MqttError::NotConnected))
            },
        ),
        (Pending::Receive(awaiting), Event::Received(Ok(n))) => Some(
            if awaiting is Incoming && n == 0 {
                done(client, Ok(None))
            } else {
                goes_on(client, Pending::Decode(awaiting), Action::Decode(n))
            },
        ),
        (Pending::Receive(_), Event::Received(Err(e))) => Some(
            done(client, Err(MqttError::Transport(e))),
        ),
        (Pending::Decode(awaiting), Event::Decoded(Ok(Some(packet)))) => Some(
            after_packet(client, awaiting, packet, now),
        ),
        (Pending::Decode(awaiting), Event::Decoded(Ok(None))) => Some(
            if awaiting is Incoming {
                done(client, Ok(None))
            } else {
                done(client, Err(invalid_response()))
            },
        ),
        (Pending::Decode(_), Event::Decoded(Err(e))) => Some(done(client, Err(e))),
        _ => None,
    }
}

/// One step of a client from `before` to `after`: a transition, or, where there
/// is none, no change.
pub open spec fn stepped<'p, E>(
    before: ClientModel,
    event: Event<'p, E>,
    now: u64,
    after: ClientModel,
    action: Option<Action<'p, E>>,
) -> bool {
    match transition(before, event, now) {
        Some((client, asked)) => after == client && action == Some(asked),
        None => after == before && action is None,
    }
}

} // verus!

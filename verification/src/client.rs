//! # The MQTT Client
//!
//! This module contains the primary `MqttClient` struct, which manages the state
//! of one connection with an MQTT broker.

use crate::error::{MqttError, ProtocolError};
use crate::machine;
use crate::machine::{
    Action, Awaiting, ClientModel, ConnectionState, Event, MqttEvent, Pending, Request,
    MAX_RECV_ATTEMPTS,
};
use crate::options;
use crate::options::{LastWill, MqttOptions, MqttVersion, OptionsModel, WillModel};
use crate::packet::{Connect, MqttPacket, PingReq, Publish, QoS, SubAck, Subscribe};
use crate::storage;
use crate::storage::{
    empty_payload, empty_topic, extend_payload, payload_slice, push_topic, topic_str,
    MAX_WILL_PAYLOAD_LEN, MAX_WILL_TOPIC_LEN,
};
use crate::time;
use crate::time::{clock_reading, Duration, TICK_HZ};
use vstd::prelude::*;

verus! {

/// Owned storage for a runtime-provided Last Will message.
struct OwnedLastWill {
    topic: heapless::String<MAX_WILL_TOPIC_LEN>,
    payload: heapless::Vec<u8, MAX_WILL_PAYLOAD_LEN>,
    qos: QoS,
    retain: bool,
}

impl OwnedLastWill {
    /// The will stored.
    spec fn contents(self) -> WillModel {
        WillModel {
            topic: storage::topic_text(self.topic),
            payload: storage::payload_bytes(self.payload),
            qos: self.qos,
            retain: self.retain,
        }
    }

    /// The will stored, borrowed.
    fn borrowed<'s>(&'s self) -> (will: LastWill<'s>)
        ensures
            will@ == self.contents(),
    {
        LastWill {
            topic: topic_str(&self.topic),
            payload: payload_slice(&self.payload),
            qos: self.qos,
            retain: self.retain,
        }
    }
}

/// The MQTT client.
pub struct MqttClient<'a> {
    options: MqttOptions<'a>,
    state: ConnectionState,
    last_tx_time: u64,
    next_packet_id: u16,
    runtime_will: Option<OwnedLastWill>,
    pending: Pending,
}

impl<'a> View for MqttClient<'a> {
    type V = ClientModel;

    closed spec fn view(&self) -> ClientModel {
        ClientModel {
            options: self.options@,
            state: self.state,
            last_tx_time: self.last_tx_time,
            next_packet_id: self.next_packet_id,
            runtime_will: match self.runtime_will {
                Some(will) => Some(will.contents()),
                None => None,
            },
            pending: self.pending,
        }
    }
}

/// A client that was just made at the time `now`.
pub open spec fn fresh(options: OptionsModel, now: u64) -> ClientModel {
    ClientModel {
        options,
        state: ConnectionState::Disconnected,
        last_tx_time: now,
        next_packet_id: 1,
        runtime_will: None,
        pending: Pending::Idle,
    }
}

/// A will fits the storage that a client has for one.
pub open spec fn will_fits(will: WillModel) -> bool {
    storage::byte_len(will.topic) <= MAX_WILL_TOPIC_LEN && will.payload.len() <= MAX_WILL_PAYLOAD_LEN
}

/// A CONNECT packet says what the client stands for. The keep-alive goes out in
/// whole seconds, of which the packet holds the lower sixteen bits.
pub open spec fn presents(packet: Connect, client: ClientModel) -> bool {
    &&& packet.client_id@ == client.options.client_id
    &&& packet.keep_alive == (client.options.keep_alive.ticks / TICK_HZ) % 0x1_0000
    &&& packet.clean_session == client.options.clean_session
    &&& options::text_contents(packet.username) == client.options.username
    &&& match packet.password {
        Some(bytes) => client.options.password matches Some(text) && bytes@ == vstd::utf8::encode_utf8(text),
        None => client.options.password is None,
    }
    &&& options::will_contents(packet.will) == client.effective_will()
}

impl<'a> MqttClient<'a> {
    /// A client that is not connected. Its keep-alive clock starts at the present
    /// reading of the clock.
    pub fn new(options: MqttOptions<'a>) -> (client: Self)
        ensures
            exists|now: u64| #[trigger]
                time::clock_gave(now) && client@ == fresh(options@, now),
    {
        let now: u64 = clock_reading();
        Self::new_at(options, now)
    }

    /// A client that is not connected. Its keep-alive clock starts at `now`, a
    /// clock reading in ticks.
    pub fn new_at(options: MqttOptions<'a>, now: u64) -> (client: Self)
        ensures
            client@ == fresh(options@, now),
    {
        MqttClient {
            options,
            state: ConnectionState::Disconnected,
            last_tx_time: now,
            next_packet_id: 1,
            runtime_will: None,
            pending: Pending::Idle,
        }
    }

    /// The protocol version in which packets are encoded and decoded.
    pub fn version(&self) -> (version: MqttVersion)
        ensures
            version == self@.options.version,
    {
        self.options.version()
    }

    /// The current connection state.
    pub fn state(&self) -> (state: ConnectionState)
        ensures
            state == self@.state,
    {
        self.state
    }

    /// Sets/overrides the Last Will and Testament for the next connections.
    ///
    /// Returns `false` when topic or payload exceed internal fixed buffers; the
    /// client is then left as it was.
    pub fn set_last_will(&mut self, will: LastWill<'_>) -> (accepted: bool)
        ensures
            accepted <==> will_fits(will@),
            accepted ==> final(self)@ == (ClientModel { runtime_will: Some(will@), ..old(self)@ }),
            !accepted ==> final(self)@ == old(self)@,
    {
        let mut topic = empty_topic();
        if push_topic(&mut topic, will.topic).is_err() {
            return false;
        }
        let mut payload = empty_payload();
        if extend_payload(&mut payload, will.payload).is_err() {
            return false;
        }
        assert(storage::topic_text(topic) =~= will.topic@);
        assert(storage::payload_bytes(payload) =~= will.payload@);
        self.runtime_will = Some(
            OwnedLastWill { topic, payload, qos: will.qos, retain: will.retain },
        );
        true
    }

    /// Attempts to connect to the MQTT broker: hands out the CONNECT packet to
    /// encode. [`MqttClient::step`] carries on from there.
    pub fn connect<'s>(&'s mut self) -> (packet: Connect<'s>)
        ensures
            final(self)@ == machine::connect_begun(old(self)@),
            presents(packet, old(self)@),
    {
        self.state = ConnectionState::Connecting;
        self.pending = Pending::Encode(Request::Connect);
        let will = match &self.runtime_will {
            Some(will) => Some(will.borrowed()),
            None => self.options.will(),
        };
        let password = match self.options.password() {
            Some(text) => Some(text.as_bytes()),
            None => None,
        };
        let secs: u64 = self.options.keep_alive().as_secs();
        assert(secs as u16 == secs % 0x1_0000) by (bit_vector);
        Connect::with_credentials(
            self.options.client_id(),
            #[verifier::truncate]
            (secs as u16),
            self.options.clean_session(),
            self.options.username(),
            password,
            will,
        )
    }

    /// Publishes a message to a topic: hands out the PUBLISH packet to encode.
    /// [`MqttClient::step`] carries on from there.
    pub fn publish<'m, E>(&mut self, topic: &'m str, payload: &'m [u8], qos: QoS) -> (packet: Result<
        Publish<'m>,
        MqttError<E>,
    >)
        ensures
            match machine::publish_begun::<E>(old(self)@, topic, payload, qos, false) {
                Ok((publish, client)) => packet == Ok::<Publish, MqttError<E>>(publish)
                    && final(self)@ == client,
                Err(e) => packet == Err::<Publish, MqttError<E>>(e) && final(self)@ == old(self)@,
            },
    {
        self.publish_with_retain(topic, payload, qos, false)
    }

    /// Publishes a message to a topic, with explicit retain flag: hands out the
    /// PUBLISH packet to encode. [`MqttClient::step`] carries on from there.
    pub fn publish_with_retain<'m, E>(
        &mut self,
        topic: &'m str,
        payload: &'m [u8],
        qos: QoS,
        retain: bool,
    ) -> (packet: Result<Publish<'m>, MqttError<E>>)
        ensures
            match machine::publish_begun::<E>(old(self)@, topic, payload, qos, retain) {
                Ok((publish, client)) => packet == Ok::<Publish, MqttError<E>>(publish)
                    && final(self)@ == client,
                Err(e) => packet == Err::<Publish, MqttError<E>>(e) && final(self)@ == old(self)@,
            },
    {
        if self.state != ConnectionState::Connected {
            return Err(MqttError::NotConnected);
        }
        let packet_id = if qos != QoS::AtMostOnce {
            Some(self.get_next_packet_id())
        } else {
            None
        };
        self.pending = Pending::Encode(Request::Publish(qos));
        Ok(Publish { topic, qos, retain, payload, packet_id, properties: None })
    }

    /// Subscribes to a topic with specified QoS: hands out the SUBSCRIBE packet
    /// to encode. [`MqttClient::step`] carries on from there.
    pub fn subscribe<'m, E>(&mut self, topic: &'m str, qos: QoS) -> (packet: Result<
        Subscribe<'m>,
        MqttError<E>,
    >)
        ensures
            match machine::subscribe_begun::<E>(old(self)@, topic, qos) {
                Ok((subscribe, client)) => packet == Ok::<Subscribe, MqttError<E>>(subscribe)
                    && final(self)@ == client,
                Err(e) => packet == Err::<Subscribe, MqttError<E>>(e) && final(self)@ == old(self)@,
            },
    {
        if self.state != ConnectionState::Connected {
            return Err(MqttError::NotConnected);
        }
        let packet_id: u16 = self.get_next_packet_id();
        self.pending = Pending::Encode(Request::Subscribe(packet_id));
        Ok(Subscribe::new(packet_id, topic, qos))
    }

    /// Sends a pre-constructed packet over the transport.
    pub(crate) fn _send_packet<'p, E>(&mut self, packet: PingReq) -> (action: Action<'p, E>)
        ensures
            old(self)@.state == ConnectionState::Connected ==> {
                &&& action == Action::<E>::Encode(packet)
                &&& final(self)@ == (ClientModel {
                    pending: Pending::Encode(Request::Ping),
                    ..old(self)@
                })
            },
            old(self)@.state != ConnectionState::Connected ==> {
                &&& action == Action::<E>::Done(Err(MqttError::NotConnected))
                &&& final(self)@ == (ClientModel { pending: Pending::Idle, ..old(self)@ })
            },
    {
        if self.state != ConnectionState::Connected {
            return self.finish(Err(MqttError::NotConnected));
        }
        self.pending = Pending::Encode(Request::Ping);
        Action::Encode(packet)
    }

    /// Polls the connection for incoming packets and handles keep-alives: tells
    /// for how long to wait for bytes before the timer fires.
    /// [`MqttClient::step`] carries on from there.
    ///
    /// A clock reading that lies before the last transmission counts as the time
    /// of that transmission.
    pub fn poll<E>(&mut self) -> (wait: Result<Duration, MqttError<E>>)
        ensures
            exists|reading: u64| #[trigger]
                time::clock_gave(reading) && match machine::poll_begun::<E>(
                    old(self)@,
                    if reading < old(self)@.last_tx_time {
                        old(self)@.last_tx_time
                    } else {
                        reading
                    },
                ) {
                    Ok((time, client)) => wait == Ok::<Duration, MqttError<E>>(time)
                        && final(self)@ == client,
                    Err(e) => wait == Err::<Duration, MqttError<E>>(e) && final(self)@ == old(
                        self,
                    )@,
                },
    {
        let reading: u64 = clock_reading();
        let now: u64 = if reading < self.last_tx_time {
            self.last_tx_time
        } else {
            reading
        };
        self.poll_at(now)
    }

    /// Polls the connection as of `now`, a clock reading in ticks that does not
    /// lie before the last transmission.
    pub fn poll_at<E>(&mut self, now: u64) -> (wait: Result<Duration, MqttError<E>>)
        requires
            old(self)@.last_tx_time <= now,
        ensures
            match machine::poll_begun::<E>(old(self)@, now) {
                Ok((time, client)) => wait == Ok::<Duration, MqttError<E>>(time) && final(self)@
                    == client,
                Err(e) => wait == Err::<Duration, MqttError<E>>(e) && final(self)@ == old(self)@,
            },
    {
        if self.state != ConnectionState::Connected {
            return Err(MqttError::NotConnected);
        }
        let elapsed: u64 = now - self.last_tx_time;
        let keep_alive: u64 = self.options.keep_alive().as_ticks();
        let remaining: u64 = if elapsed >= keep_alive {
            0
        } else {
            keep_alive - elapsed
        };
        self.pending = Pending::Receive(Awaiting::Incoming);
        Ok(Duration::from_ticks(remaining))
    }

    /// Carries the operation under way on by one step: takes what came of the
    /// step asked for last, and tells what to do next. `None`, with nothing
    /// changed, where the event does not answer that step.
    pub fn step<'p, E>(&mut self, event: Event<'p, E>) -> (action: Option<Action<'p, E>>)
        ensures
            exists|now: u64| #[trigger]
                time::clock_gave(now) && machine::stepped(
                    old(self)@,
                    event,
                    now,
                    final(self)@,
                    action,
                ),
    {
        let now: u64 = clock_reading();
        self.step_at(event, now)
    }

    /// Carries the operation under way on by one step at `now`, a clock reading
    /// in ticks.
    pub fn step_at<'p, E>(&mut self, event: Event<'p, E>, now: u64) -> (action: Option<
        Action<'p, E>,
    >)
        ensures
            machine::stepped(old(self)@, event, now, final(self)@, action),
    {
        match (self.pending, event) {
            (Pending::Encode(request), Event::Encoded(Ok(len))) => {
                self.pending = Pending::Send(request);
                Some(Action::Send(len))
            },
            (Pending::Encode(_), Event::Encoded(Err(e))) => match e.cast_transport_error() {
                Ok(e) => Some(self.finish(Err(e))),
                Err(_) => None,
            },
            (Pending::Send(request), Event::Sent(Ok(()))) => Some(self.sent(request, now)),
            (Pending::Send(_), Event::Sent(Err(e))) => Some(
                self.finish(Err(MqttError::Transport(e))),
            ),
            (Pending::Receive(Awaiting::Incoming), Event::TimerFired) => Some(
                self._send_packet(PingReq),
            ),
            (Pending::Receive(Awaiting::Incoming), Event::Received(Ok(0))) => Some(
                self.finish(Ok(None)),
            ),
            (Pending::Receive(awaiting), Event::Received(Ok(n))) => {
                self.pending = Pending::Decode(awaiting);
                Some(Action::Decode(n))
            },
            (Pending::Receive(_), Event::Received(Err(e))) => Some(
                self.finish(Err(MqttError::Transport(e))),
            ),
            (Pending::Decode(awaiting), Event::Decoded(Ok(Some(packet)))) => Some(
                self.arrived(awaiting, packet, now),
            ),
            (Pending::Decode(Awaiting::Incoming), Event::Decoded(Ok(None))) => Some(
                self.finish(Ok(None)),
            ),
            (Pending::Decode(_), Event::Decoded(Ok(None))) => Some(
                self.finish(Err(MqttError::Protocol(ProtocolError::InvalidResponse))),
            ),
            (Pending::Decode(_), Event::Decoded(Err(e))) => Some(self.finish(Err(e))),
            _ => None,
        }
    }

    /// Ends the operation under way.
    fn finish<'p, E>(&mut self, result: Result<Option<MqttEvent<'p>>, MqttError<E>>) -> (action:
        Action<'p, E>)
        ensures
            (final(self)@, action) == machine::done(old(self)@, result),
    {
        self.pending = Pending::Idle;
        Action::Done(result)
    }

    /// Goes on with receiving.
    fn await_packet<'p, E>(&mut self, awaiting: Awaiting) -> (action: Action<'p, E>)
        ensures
            (final(self)@, action) == machine::goes_on(
                old(self)@,
                Pending::Receive(awaiting),
                Action::<E>::Receive,
            ),
    {
        self.pending = Pending::Receive(awaiting);
        Action::Receive
    }

    /// Goes on after a request was transmitted.
    fn sent<'p, E>(&mut self, request: Request, now: u64) -> (action: Action<'p, E>)
        ensures
            (final(self)@, action) == machine::after_sent::<E>(old(self)@, request, now),
    {
        match request {
            Request::Connect => self.await_packet(Awaiting::ConnAck),
            Request::Publish(qos) => {
                self.last_tx_time = now;
                if qos != QoS::AtMostOnce {
                    self.await_packet(Awaiting::PubAck { attempts: MAX_RECV_ATTEMPTS })
                } else {
                    self.finish(Ok(None))
                }
            },
            Request::Subscribe(packet_id) => {
                self.last_tx_time = now;
                self.await_packet(Awaiting::SubAck { packet_id, attempts: MAX_RECV_ATTEMPTS })
            },
            Request::Ping => {
                self.last_tx_time = now;
                self.finish(Ok(None))
            },
        }
    }

    /// Goes on after a packet arrived.
    fn arrived<'p, E>(&mut self, awaiting: Awaiting, packet: MqttPacket<'p>, now: u64) -> (action:
        Action<'p, E>)
        ensures
            (final(self)@, action) == machine::after_packet::<E>(old(self)@, awaiting, packet, now),
    {
        match awaiting {
            Awaiting::ConnAck => self.connect_answered(packet, now),
            Awaiting::PubAck { attempts } => match packet {
                MqttPacket::PubAck(_) => self.finish(Ok(None)),
                MqttPacket::PingResp | MqttPacket::Publish(_) => {
                    if attempts > 1 {
                        self.await_packet(Awaiting::PubAck { attempts: attempts - 1 })
                    } else {
                        self.finish(Err(MqttError::Protocol(ProtocolError::InvalidResponse)))
                    }
                },
                _ => self.finish(Err(MqttError::Protocol(ProtocolError::InvalidResponse))),
            },
            Awaiting::SubAck { packet_id, attempts } => match packet {
                MqttPacket::SubAck(suback) => {
                    if subscription_granted(suback, packet_id) {
                        self.finish(Ok(None))
                    } else {
                        self.finish(Err(MqttError::Protocol(ProtocolError::InvalidResponse)))
                    }
                },
                MqttPacket::PingResp | MqttPacket::Publish(_) => {
                    if attempts > 1 {
                        self.await_packet(Awaiting::SubAck { packet_id, attempts: attempts - 1 })
                    } else {
                        self.finish(Err(MqttError::Protocol(ProtocolError::InvalidResponse)))
                    }
                },
                _ => self.finish(Err(MqttError::Protocol(ProtocolError::InvalidResponse))),
            },
            Awaiting::Incoming => match packet {
                MqttPacket::Publish(publish) => self.finish(Ok(Some(MqttEvent::Publish(publish)))),
                _ => self.finish(Ok(None)),
            },
        }
    }

    /// Ends a connection attempt that the broker answered.
    fn connect_answered<'p, E>(&mut self, packet: MqttPacket<'p>, now: u64) -> (action: Action<
        'p,
        E,
    >)
        ensures
            (final(self)@, action) == machine::after_packet::<E>(
                old(self)@,
                Awaiting::ConnAck,
                packet,
                now,
            ),
    {
        if let MqttPacket::ConnAck(connack) = packet {
            if connack.reason_code == 0 {
                self.state = ConnectionState::Connected;
                self.last_tx_time = now;
                self.finish(Ok(None))
            } else {
                self.state = ConnectionState::Disconnected;
                self.finish(Err(MqttError::ConnectionRefused(connack.reason_code)))
            }
        } else {
            self.state = ConnectionState::Disconnected;
            self.finish(Err(MqttError::Protocol(ProtocolError::InvalidResponse)))
        }
    }

    /// Gives out the next packet identifier.
    pub(crate) fn get_next_packet_id(&mut self) -> (id: u16)
        ensures
            id == machine::id_after(old(self)@.next_packet_id),
            final(self)@ == (ClientModel { next_packet_id: id, ..old(self)@ }),
    {
        self.next_packet_id = self.next_packet_id.wrapping_add(1);
        if self.next_packet_id == 0 {
            self.next_packet_id = 1;
        }
        self.next_packet_id
    }
}

/// A SUBACK grants the subscription made under an identifier.
fn subscription_granted(suback: SubAck<'_>, packet_id: u16) -> (granted: bool)
    ensures
        granted == machine::grants(suback, packet_id),
{
    suback.packet_id == packet_id && suback.reason_codes.len() > 0 && suback.reason_codes[0] < 0x80
}

} // verus!

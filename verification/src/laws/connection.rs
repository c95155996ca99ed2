//! What a connection attempt answers, and what a client does without a connection.

use crate::error::{MqttError, ProtocolError};
use crate::laws::runs;
use crate::laws::runs::Reply;
use crate::machine;
use crate::machine::{
    Action, Awaiting, ClientModel, ConnectionState, Event, MqttEvent, Pending,
};
use crate::packet::{MqttPacket, Publish, QoS, Subscribe};
use crate::time::Duration;
use crate::transport::ErrorPlaceHolder;
use vstd::prelude::*;

verus! {

/// Where no step fails, a connection attempt ends with the broker's first packet:
/// a CONNACK of reason code zero connects the client and starts its keep-alive
/// clock, one of another code is reported with that code, and any other packet
/// is an invalid response; in the latter two cases the client is disconnected.
pub proof fn law_connect_answered<'p, E>(
    client: ClientModel,
    len: usize,
    encoded_at: u64,
    sent_at: u64,
    received: usize,
    packet: MqttPacket<'p>,
    received_at: u64,
    decoded_at: u64,
)
    ensures
        runs::run::<E>(
            machine::connect_begun(client),
            runs::sent_events(len, encoded_at, sent_at) + runs::reply_events(
                Reply { len: received, decoded: Ok(Some(packet)) },
                received_at,
                decoded_at,
            ),
        ) == Some(
            (
                match packet {
                    MqttPacket::ConnAck(connack) if connack.reason_code == 0 => ClientModel {
                        state: ConnectionState::Connected,
                        last_tx_time: decoded_at,
                        pending: Pending::Idle,
                        ..client
                    },
                    _ => ClientModel {
                        state: ConnectionState::Disconnected,
                        pending: Pending::Idle,
                        ..client
                    },
                },
                seq![
                    Action::<'p, E>::Send(len),
                    Action::Receive,
                    Action::Decode(received),
                    Action::Done(
                        match packet {
                            MqttPacket::ConnAck(connack) => if connack.reason_code == 0 {
                                Ok(None)
                            } else {
                                Err(MqttError::ConnectionRefused(connack.reason_code))
                            },
                            _ => Err(MqttError::Protocol(ProtocolError::InvalidResponse)),
                        },
                    ),
                ],
            ),
        ),
{
    let begun = machine::connect_begun(client);
    let first = runs::sent_events::<'p, E>(len, encoded_at, sent_at);
    let reply = Reply { len: received, decoded: Ok(Some(packet)) };
    let waiting = ClientModel { pending: Pending::Receive(Awaiting::ConnAck), ..begun };
    let second = runs::reply_events::<E>(reply, received_at, decoded_at);
    runs::lemma_run_two(begun, first[0], first[1]);
    runs::lemma_run_two(waiting, second[0], second[1]);
    runs::lemma_run_concat(begun, first, second);
    let (idle, actions) = runs::run(waiting, second)->0;
    assert(seq![Action::<'p, E>::Send(len), Action::Receive] + actions =~= seq![
        Action::<'p, E>::Send(len),
        Action::Receive,
        actions[0],
        actions[1],
    ]);
}

/// What the codec and the transport report in a connection attempt, as far as it
/// comes: each is asked only where the one before succeeded.
pub struct Attempt<'p, E> {
    pub encoded: Result<usize, MqttError<ErrorPlaceHolder>>,
    pub sent: Result<(), E>,
    pub received: Result<usize, E>,
    pub decoded: Result<Option<MqttPacket<'p>>, MqttError<E>>,
}

impl<'p, E> Attempt<'p, E> {
    /// The events by which a client hears of the attempt, each at its own time.
    pub open spec fn events(self, times: (u64, u64, u64, u64)) -> Seq<(Event<'p, E>, u64)> {
        let encoded = seq![(Event::Encoded(self.encoded), times.0)];
        let sent = encoded.push((Event::Sent(self.sent), times.1));
        let received = sent.push((Event::Received(self.received), times.2));
        if self.encoded is Err {
            encoded
        } else if self.sent is Err {
            sent
        } else if self.received is Err {
            received
        } else {
            received.push((Event::Decoded(self.decoded), times.3))
        }
    }

    /// The packet that the broker answered with, where the attempt came so far.
    pub open spec fn answer(self) -> Option<MqttPacket<'p>> {
        if self.encoded is Ok && self.sent is Ok && self.received is Ok && self.decoded is Ok {
            self.decoded->Ok_0
        } else {
            None
        }
    }

    /// The broker answered with a CONNACK of reason code zero.
    pub open spec fn accepted(self) -> bool {
        self.answer() matches Some(MqttPacket::ConnAck(connack)) && connack.reason_code == 0
    }

    /// What the attempt answers.
    pub open spec fn result(self) -> Result<Option<MqttEvent<'p>>, MqttError<E>> {
        match (self.encoded, self.sent, self.received, self.decoded) {
            (Err(e), _, _, _) => Err(runs::reported(e)->0),
            (_, Err(e), _, _) => Err(MqttError::Transport(e)),
            (_, _, Err(e), _) => Err(MqttError::Transport(e)),
            (_, _, _, Err(e)) => Err(e),
            (_, _, _, Ok(Some(MqttPacket::ConnAck(connack)))) => if connack.reason_code == 0 {
                Ok(None)
            } else {
                Err(MqttError::ConnectionRefused(connack.reason_code))
            },
            _ => Err(MqttError::Protocol(ProtocolError::InvalidResponse)),
        }
    }

    /// What the attempt makes of a client: connected where it was accepted,
    /// disconnected where the broker answered with anything else, and still
    /// connecting where no answer came.
    pub open spec fn outcome(self, client: ClientModel, decoded_at: u64) -> ClientModel {
        ClientModel {
            state: if self.accepted() {
                ConnectionState::Connected
            } else if self.answer() is Some {
                ConnectionState::Disconnected
            } else {
                ConnectionState::Connecting
            },
            last_tx_time: if self.accepted() {
                decoded_at
            } else {
                client.last_tx_time
            },
            pending: Pending::Idle,
            ..client
        }
    }
}

/// A connection attempt ends, whatever comes of encoding, sending, receiving and
/// decoding and whenever it comes. It succeeds exactly where the broker accepted
/// it, and exactly then the client is connected afterwards.
pub proof fn law_connect_attempt<'p, E>(
    client: ClientModel,
    attempt: Attempt<'p, E>,
    times: (u64, u64, u64, u64),
)
    requires
        attempt.encoded matches Err(e) ==> !(e is Transport),
    ensures
        runs::ends(
            machine::connect_begun(client),
            attempt.events(times),
            attempt.outcome(client, times.3),
            attempt.result(),
        ),
        attempt.result() is Ok <==> attempt.accepted(),
        attempt.result() is Ok <==> attempt.outcome(client, times.3).state
            == ConnectionState::Connected,
{
    let begun = machine::connect_begun(client);
    let waiting = ClientModel { pending: Pending::Receive(Awaiting::ConnAck), ..begun };
    let e0 = (Event::<'p, E>::Encoded(attempt.encoded), times.0);
    let e1 = (Event::<'p, E>::Sent(attempt.sent), times.1);
    let e2 = (Event::<'p, E>::Received(attempt.received), times.2);
    let e3 = (Event::<'p, E>::Decoded(attempt.decoded), times.3);
    runs::lemma_run_one(begun, e0);
    runs::lemma_run_two(begun, e0, e1);
    runs::lemma_run_one(waiting, e2);
    runs::lemma_run_two(waiting, e2, e3);
    runs::lemma_run_concat(begun, seq![e0, e1], seq![e2]);
    runs::lemma_run_concat(begun, seq![e0, e1], seq![e2, e3]);
    assert(seq![e0].push(e1) =~= seq![e0, e1]);
    assert(seq![e0, e1].push(e2) =~= seq![e0, e1] + seq![e2]);
    assert((seq![e0, e1] + seq![e2]).push(e3) =~= seq![e0, e1] + seq![e2, e3]);
}

/// A step at which a connection attempt can be.
pub open spec fn connecting(pending: Pending) -> bool {
    match pending {
        Pending::Encode(request) | Pending::Send(request) => request is Connect,
        Pending::Receive(awaiting) | Pending::Decode(awaiting) => awaiting is ConnAck,
        Pending::Idle => false,
    }
}

/// However a connection attempt ends, it has succeeded if and only if the client
/// is connected afterwards.
pub proof fn law_connect_result<'p, E>(
    client: ClientModel,
    events: Seq<(Event<'p, E>, u64)>,
    after: ClientModel,
    result: Result<Option<MqttEvent<'p>>, MqttError<E>>,
)
    requires
        runs::ends(machine::connect_begun(client), events, after, result),
    ensures
        result is Ok <==> after.state == ConnectionState::Connected,
        result matches Ok(success) ==> success is None,
{
    lemma_connecting_result(machine::connect_begun(client), events, after, result);
}

/// The same from any step of the attempt on.
proof fn lemma_connecting_result<'p, E>(
    client: ClientModel,
    events: Seq<(Event<'p, E>, u64)>,
    after: ClientModel,
    result: Result<Option<MqttEvent<'p>>, MqttError<E>>,
)
    requires
        connecting(client.pending),
        client.state == ConnectionState::Connecting,
        runs::ends(client, events, after, result),
    ensures
        result is Ok <==> after.state == ConnectionState::Connected,
        result matches Ok(success) ==> success is None,
    decreases events.len(),
{
    let rest = events.drop_first();
    let (next, action) = machine::transition(client, events[0].0, events[0].1)->0;
    let (last, actions) = runs::run(next, rest)->0;
    if rest.len() == 0 {
        assert(seq![action] + actions =~= seq![action]);
    } else {
        runs::lemma_run_asks(next, rest);
        assert((seq![action] + actions).last() == actions.last());
        if action is Done {
            assert(machine::transition(next, rest[0].0, rest[0].1) is None);
        } else {
            lemma_connecting_result(next, rest, after, result);
        }
    }
}

/// No operation but a connection attempt changes the connection state, through
/// whatever events and times it goes.
pub proof fn law_operations_keep_connection<'p, E>(
    client: ClientModel,
    events: Seq<(Event<'p, E>, u64)>,
)
    requires
        !connecting(client.pending),
    ensures
        runs::run(client, events) matches Some((after, actions)) ==> after.state == client.state,
    decreases events.len(),
{
    if events.len() > 0 {
        match machine::transition(client, events[0].0, events[0].1) {
            Some((next, action)) => {
                law_operations_keep_connection(next, events.drop_first());
            },
            None => {},
        }
    }
}

/// A client that is not connected refuses to publish, to subscribe and to poll.
/// That is so before the first connection, while one is being made, and after
/// the broker refused one.
pub proof fn law_unconnected_refuses<'m, E>(
    client: ClientModel,
    topic: &'m str,
    payload: &'m [u8],
    qos: QoS,
    retain: bool,
    now: u64,
)
    requires
        client.state != ConnectionState::Connected,
    ensures
        machine::publish_begun::<E>(client, topic, payload, qos, retain) == Err::<
            (Publish, ClientModel),
            MqttError<E>,
        >(MqttError::NotConnected),
        machine::subscribe_begun::<E>(client, topic, qos) == Err::<
            (Subscribe, ClientModel),
            MqttError<E>,
        >(MqttError::NotConnected),
        machine::poll_begun::<E>(client, now) == Err::<(Duration, ClientModel), MqttError<E>>(
            MqttError::NotConnected,
        ),
{
}

} // verus!

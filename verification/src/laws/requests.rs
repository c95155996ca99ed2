//! What the calls that begin an operation hand out, and what they make of the client.

use crate::client::MqttClient;
use crate::error::MqttError;
use crate::laws::calls;
use crate::laws::calls::Call;
use crate::machine;
use crate::machine::{Awaiting, ClientModel, ConnectionState, Pending, Request};
use crate::packet::{Publish, QoS, Subscribe};
use crate::time;
use crate::time::Duration;
use vstd::prelude::*;

verus! {

/// The identifiers count up, and go on with 1 after the last.
pub open spec fn follows(id: u16, before: u16) -> bool {
    if before == 65535 {
        id == 1
    } else {
        id == before + 1
    }
}

/// What a PUBLISH packet made for a message says, and what beginning to send it
/// does to a client: the message is as it was given, it has an identifier exactly
/// if it asks for an acknowledgement, and then the next one in turn, and nothing of
/// the client changes but the identifier given out and the step that is pending.
pub open spec fn publish_made<'m>(
    before: ClientModel,
    topic: &'m str,
    payload: &'m [u8],
    qos: QoS,
    retain: bool,
    packet: Publish<'m>,
    after: ClientModel,
) -> bool {
    &&& packet.topic == topic
    &&& packet.payload == payload
    &&& packet.qos == qos
    &&& packet.retain == retain
    &&& packet.properties is None
    &&& packet.packet_id is Some <==> packet.qos != QoS::AtMostOnce
    &&& packet.packet_id matches Some(id) ==> follows(id, before.next_packet_id)
    &&& after == (ClientModel {
        next_packet_id: match packet.packet_id {
            Some(id) => id,
            None => before.next_packet_id,
        },
        pending: Pending::Encode(Request::Publish(qos)),
        ..before
    })
}

/// A message is accepted exactly if the client is connected. The packet then
/// carries the topic, payload, quality of service and retain flag that were given.
/// A client that is not connected says so and stays as it was.
pub proof fn law_publish_with_retain<'a, 'm, E>(
    client: &mut MqttClient<'a>,
    topic: &'m str,
    payload: &'m [u8],
    qos: QoS,
    retain: bool,
    packet: Result<Publish<'m>, MqttError<E>>,
)
    requires
        call_ensures(
            MqttClient::publish_with_retain::<E>,
            (client, topic, payload, qos, retain),
            packet,
        ),
    ensures
        packet is Ok <==> old(client)@.state == ConnectionState::Connected,
        match packet {
            Ok(publish) => {
                &&& publish_made(
                    old(client)@,
                    topic,
                    payload,
                    qos,
                    retain,
                    publish,
                    final(client)@,
                )
                &&& machine::publish_begun::<E>(old(client)@, topic, payload, qos, retain) == Ok::<
                    (Publish, ClientModel),
                    MqttError<E>,
                >((publish, final(client)@))
            },
            Err(error) => error is NotConnected && final(client)@ == old(client)@,
        },
        final(client)@ == calls::after_call::<E>(
            old(client)@,
            Call::Publish { topic, payload, qos, retain },
        ),
{
}

/// Publishing without a word on retaining sends a message that is not retained,
/// and is otherwise the same.
pub proof fn law_publish<'a, 'm, E>(
    client: &mut MqttClient<'a>,
    topic: &'m str,
    payload: &'m [u8],
    qos: QoS,
    packet: Result<Publish<'m>, MqttError<E>>,
)
    requires
        call_ensures(MqttClient::publish::<E>, (client, topic, payload, qos), packet),
    ensures
        packet is Ok <==> old(client)@.state == ConnectionState::Connected,
        match packet {
            Ok(publish) => publish_made(
                old(client)@,
                topic,
                payload,
                qos,
                false,
                publish,
                final(client)@,
            ),
            Err(error) => error is NotConnected && final(client)@ == old(client)@,
        },
{
}

/// A subscription is accepted exactly if the client is connected. The packet then
/// carries the topic and quality of service that were given, under the next
/// identifier in turn, and nothing of the client changes but that identifier and
/// the step that is pending. A client that is not connected says so and stays as
/// it was.
pub proof fn law_subscribe<'a, 'm, E>(
    client: &mut MqttClient<'a>,
    topic: &'m str,
    qos: QoS,
    packet: Result<Subscribe<'m>, MqttError<E>>,
)
    requires
        call_ensures(MqttClient::subscribe::<E>, (client, topic, qos), packet),
    ensures
        packet is Ok <==> old(client)@.state == ConnectionState::Connected,
        match packet {
            Ok(subscribe) => {
                &&& subscribe.topic == topic
                &&& subscribe.qos == qos
                &&& follows(subscribe.packet_id, old(client)@.next_packet_id)
                &&& final(client)@ == (ClientModel {
                    next_packet_id: subscribe.packet_id,
                    pending: Pending::Encode(Request::Subscribe(subscribe.packet_id)),
                    ..old(client)@
                })
                &&& machine::subscribe_begun::<E>(old(client)@, topic, qos) == Ok::<
                    (Subscribe, ClientModel),
                    MqttError<E>,
                >((subscribe, final(client)@))
            },
            Err(error) => error is NotConnected && final(client)@ == old(client)@,
        },
        final(client)@ == calls::after_call::<E>(
            old(client)@,
            Call::Subscribe { topic, qos },
        ),
{
}

/// Two requests made one after the other go out under different identifiers.
pub proof fn law_requests_differ<'a, 'm, E>(
    client: &mut MqttClient<'a>,
    topic: &'m str,
    payload: &'m [u8],
    qos: QoS,
    retain: bool,
    publish: Publish<'m>,
    later: &mut MqttClient<'a>,
    filter: &'m str,
    wanted: QoS,
    subscribe: Subscribe<'m>,
)
    requires
        qos != QoS::AtMostOnce,
        call_ensures(
            MqttClient::publish_with_retain::<E>,
            (client, topic, payload, qos, retain),
            Ok(publish),
        ),
        *later == *final(client),
        call_ensures(MqttClient::subscribe::<E>, (later, filter, wanted), Ok(subscribe)),
    ensures
        publish.packet_id != Some(subscribe.packet_id),
        publish.packet_id matches Some(id) && id != 0,
        subscribe.packet_id != 0,
{
}

/// A poll of a client that is connected waits for what is left of the keep-alive
/// interval: not at all exactly if it has gone by since the last transmission, and
/// otherwise until the moment at which it will have. A client that is not connected
/// says so and stays as it was.
pub proof fn law_poll_at<'a, E>(
    client: &mut MqttClient<'a>,
    now: u64,
    wait: Result<Duration, MqttError<E>>,
)
    requires
        old(client)@.last_tx_time <= now,
        call_ensures(MqttClient::poll_at::<E>, (client, now), wait),
    ensures
        wait is Ok <==> old(client)@.state == ConnectionState::Connected,
        match wait {
            Ok(time) => {
                &&& time.ticks == 0 <==> now - old(client)@.last_tx_time >= old(
                    client,
                )@.options.keep_alive.ticks
                &&& time.ticks != 0 ==> now + time.ticks == old(client)@.last_tx_time + old(
                    client,
                )@.options.keep_alive.ticks
                &&& final(client)@ == (ClientModel {
                    pending: Pending::Receive(Awaiting::Incoming),
                    ..old(client)@
                })
            },
            Err(error) => error is NotConnected && final(client)@ == old(client)@,
        },
        final(client)@ == calls::after_call::<E>(old(client)@, Call::Poll { now }),
{
}

/// The larger of two numbers.
pub open spec fn larger(a: int, b: int) -> int {
    if a < b {
        b
    } else {
        a
    }
}

/// A poll measures from the reading that the clock gives during the call: it waits
/// from then until a keep-alive interval has gone by since the last transmission.
/// A reading that lies before the last transmission counts as the time of it.
pub proof fn law_poll_by_the_clock<'a, E>(
    client: &mut MqttClient<'a>,
    wait: Result<Duration, MqttError<E>>,
)
    requires
        call_ensures(MqttClient::poll::<E>, (client,), wait),
    ensures
        wait is Ok <==> old(client)@.state == ConnectionState::Connected,
        match wait {
            Ok(time) => {
                &&& exists|reading: u64| #[trigger]
                    time::clock_gave(reading) && time.ticks == larger(
                        0,
                        old(client)@.last_tx_time + old(client)@.options.keep_alive.ticks - larger(
                            reading as int,
                            old(client)@.last_tx_time as int,
                        ),
                    )
                &&& final(client)@ == (ClientModel {
                    pending: Pending::Receive(Awaiting::Incoming),
                    ..old(client)@
                })
            },
            Err(error) => error is NotConnected && final(client)@ == old(client)@,
        },
{
}

} // verus!

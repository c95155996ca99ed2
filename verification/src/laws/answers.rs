//! When a step answers what, and what it then leaves behind.

use crate::client::MqttClient;
use crate::error::{MqttError, ProtocolError};
use crate::laws::calls;
use crate::laws::calls::Call;
use crate::laws::{runs, waits};
use crate::machine;
use crate::machine::{
    Action, Awaiting, ClientModel, ConnectionState, Event, MqttEvent, Pending, Request,
};
use crate::packet::{MqttPacket, PingReq, QoS};
use crate::time;
use vstd::prelude::*;

verus! {

/// A step at a given time goes by the transitions of a client.
pub proof fn law_step_at<'a, 'p, E>(
    client: &mut MqttClient<'a>,
    event: Event<'p, E>,
    now: u64,
    action: Option<Action<'p, E>>,
)
    requires
        call_ensures(MqttClient::step_at::<E>, (client, event, now), action),
    ensures
        machine::stepped(old(client)@, event, now, final(client)@, action),
        final(client)@ == calls::after_call(old(client)@, Call::Step { event, now }),
{
}

/// A step goes by the transitions of a client at the time that the clock gives
/// during the call.
pub proof fn law_step_by_the_clock<'a, 'p, E>(
    client: &mut MqttClient<'a>,
    event: Event<'p, E>,
    action: Option<Action<'p, E>>,
)
    requires
        call_ensures(MqttClient::step::<E>, (client, event), action),
    ensures
        exists|now: u64| #[trigger]
            time::clock_gave(now) && machine::stepped(
                old(client)@,
                event,
                now,
                final(client)@,
                action,
            ),
        final(client)@.last_tx_time == old(client)@.last_tx_time || time::clock_gave(
            final(client)@.last_tx_time,
        ),
{
    let now = choose|now: u64| #[trigger]
        time::clock_gave(now) && machine::stepped(
            old(client)@,
            event,
            now,
            final(client)@,
            action,
        );
    law_time_of_last_transmission(old(client)@, event, now, final(client)@, action);
}

/// A step that makes no transition and one that makes one are told apart by the
/// answer, and the transitions of a run are those of its steps.
pub proof fn law_steps_are_transitions<'p, E>(
    before: ClientModel,
    event: Event<'p, E>,
    now: u64,
    after: ClientModel,
    action: Option<Action<'p, E>>,
)
    requires
        machine::stepped(before, event, now, after, action),
    ensures
        machine::transition(before, event, now) == (match action {
            Some(asked) => Some((after, asked)),
            None => None,
        }),
        action is None ==> after == before,
{
}

/// The event is one that the pending step can have: it tells how that step went.
/// No encoding fails with an error of the transport, and a timer runs only while a
/// poll receives.
pub open spec fn tells_of<E>(event: Event<E>, pending: Pending) -> bool {
    match event {
        Event::Encoded(encoded) => pending is Encode && !(encoded matches Err(e) && e is Transport),
        Event::Sent(_) => pending is Send,
        Event::Received(_) => pending is Receive,
        Event::TimerFired => pending == Pending::Receive(Awaiting::Incoming),
        Event::Decoded(_) => pending is Decode,
    }
}

/// A step answers nothing exactly if its event does not tell of the step that is
/// pending, and then changes nothing.
pub proof fn law_unanswered<'p, E>(
    before: ClientModel,
    event: Event<'p, E>,
    now: u64,
    after: ClientModel,
    action: Option<Action<'p, E>>,
)
    requires
        machine::stepped(before, event, now, after, action),
    ensures
        action is None <==> !tells_of(event, before.pending),
        action is None ==> after == before,
{
}

/// A client has as many bytes sent as were encoded, exactly when they were, and as
/// many decoded as came in, exactly when they did; a poll decodes nothing where
/// nothing came in. What is sent or decoded belongs to the same request or wait.
pub proof fn law_bytes_passed_on<'p, E>(
    before: ClientModel,
    event: Event<'p, E>,
    now: u64,
    after: ClientModel,
    action: Option<Action<'p, E>>,
    count: usize,
)
    requires
        machine::stepped(before, event, now, after, action),
    ensures
        action == Some(Action::<'p, E>::Send(count)) <==> before.pending is Encode && event
            == Event::<'p, E>::Encoded(Ok(count)),
        action matches Some(Action::Send(_)) ==> (before.pending matches Pending::Encode(request)
            && after == (ClientModel { pending: Pending::Send(request), ..before })),
        action == Some(Action::<'p, E>::Decode(count)) <==> before.pending is Receive && event
            == Event::<'p, E>::Received(Ok(count)) && !(before.pending == Pending::Receive(
            Awaiting::Incoming,
        ) && count == 0),
        action matches Some(Action::Decode(_)) ==> (before.pending matches Pending::Receive(
            awaiting,
        ) && after == (ClientModel { pending: Pending::Decode(awaiting), ..before })),
{
}

/// A client asks for a PINGREQ exactly when the timer of a poll fires while it is
/// connected.
pub proof fn law_pings<'p, E>(
    before: ClientModel,
    event: Event<'p, E>,
    now: u64,
    after: ClientModel,
    action: Option<Action<'p, E>>,
)
    requires
        machine::stepped(before, event, now, after, action),
    ensures
        action == Some(Action::<'p, E>::Encode(PingReq)) <==> event is TimerFired && before.pending
            == Pending::Receive(Awaiting::Incoming) && before.state == ConnectionState::Connected,
        action matches Some(Action::Encode(_)) ==> after == (ClientModel {
            pending: Pending::Encode(Request::Ping),
            ..before
        }),
{
}

/// The wait that follows a request that was sent; none where the operation is over
/// with it.
pub open spec fn wait_for(request: Request) -> Option<Awaiting> {
    match request {
        Request::Connect => Some(Awaiting::ConnAck),
        Request::Publish(qos) if qos != QoS::AtMostOnce => Some(Awaiting::PubAck { attempts: 16 }),
        Request::Subscribe(packet_id) => Some(Awaiting::SubAck { packet_id, attempts: 16 }),
        _ => None,
    }
}

/// The packet is passed over by a wait that can try again.
pub open spec fn tries_again<E>(pending: Pending, event: Event<E>) -> bool {
    &&& pending matches Pending::Decode(awaiting)
    &&& event matches Event::Decoded(Ok(Some(packet)))
    &&& packet is PingResp || packet is Publish
    &&& waits::attempts_left(awaiting) > 1
}

/// A client asks to receive exactly when a request that is to be answered was sent,
/// or when a wait for an acknowledgement passed over a packet and has an attempt
/// left. It then waits for the answer to that request, or goes on with the same wait
/// and one attempt fewer.
pub proof fn law_receives<'p, E>(
    before: ClientModel,
    event: Event<'p, E>,
    now: u64,
    after: ClientModel,
    action: Option<Action<'p, E>>,
)
    requires
        machine::stepped(before, event, now, after, action),
    ensures
        action matches Some(Action::Receive) <==> ({
            &&& before.pending matches Pending::Send(request)
            &&& event matches Event::Sent(Ok(_))
            &&& wait_for(request) is Some
        }) || tries_again(before.pending, event),
        action matches Some(Action::Receive) ==> match before.pending {
            Pending::Send(request) => after.pending == Pending::Receive(wait_for(request)->0),
            Pending::Decode(awaiting) => after == (ClientModel {
                pending: Pending::Receive(
                    waits::with_attempts(
                        awaiting,
                        (waits::attempts_left(awaiting) - 1) as nat,
                    ),
                ),
                ..before
            }),
            _ => false,
        },
{
}

/// The packet is the one that ends a wait well: a CONNACK of code zero, the
/// acknowledgement waited for, or, for a poll, any packet that is no message.
pub open spec fn satisfies(awaiting: Awaiting, packet: MqttPacket) -> bool {
    match awaiting {
        Awaiting::ConnAck => packet matches MqttPacket::ConnAck(connack) && connack.reason_code == 0,
        Awaiting::Incoming => !(packet is Publish),
        _ => waits::acknowledged(awaiting, packet),
    }
}

/// An operation succeeds with nothing to report exactly when a PINGREQ or a message
/// that asks for no acknowledgement was sent, when a poll got no bytes or no whole
/// packet, or when the packet came that ends its wait well.
pub proof fn law_succeeds<'p, E>(
    before: ClientModel,
    event: Event<'p, E>,
    now: u64,
    after: ClientModel,
    action: Option<Action<'p, E>>,
)
    requires
        machine::stepped(before, event, now, after, action),
    ensures
        action == Some(Action::<'p, E>::Done(Ok(None))) <==> ({
            ||| ({
                &&& before.pending matches Pending::Send(request)
                &&& event matches Event::Sent(Ok(_))
                &&& wait_for(request) is None
            })
            ||| before.pending == Pending::Receive(Awaiting::Incoming) && event
                == Event::<'p, E>::Received(Ok(0))
            ||| before.pending == Pending::Decode(Awaiting::Incoming) && event
                == Event::<'p, E>::Decoded(Ok(None))
            ||| ({
                &&& before.pending matches Pending::Decode(awaiting)
                &&& event matches Event::Decoded(Ok(Some(packet)))
                &&& satisfies(awaiting, packet)
            })
        }),
{
}

/// An operation succeeds with a report exactly when a poll decoded a message, and
/// it reports that message.
pub proof fn law_reports<'p, E>(
    before: ClientModel,
    event: Event<'p, E>,
    now: u64,
    after: ClientModel,
    action: Option<Action<'p, E>>,
    reported: MqttEvent<'p>,
)
    requires
        machine::stepped(before, event, now, after, action),
    ensures
        action == Some(Action::<'p, E>::Done(Ok(Some(reported)))) <==> ({
            &&& before.pending == Pending::Decode(Awaiting::Incoming)
            &&& event matches Event::Decoded(Ok(Some(MqttPacket::Publish(publish))))
            &&& reported == MqttEvent::Publish(publish)
        }),
{
}

/// What a client makes of a packet that neither ends its wait well nor is passed
/// over: a CONNACK tells why the connection was refused, and anything else is no
/// valid response.
pub open spec fn refusal<E>(awaiting: Awaiting, packet: MqttPacket) -> MqttError<E> {
    match packet {
        MqttPacket::ConnAck(connack) if awaiting is ConnAck => MqttError::ConnectionRefused(
            connack.reason_code,
        ),
        _ => MqttError::Protocol(ProtocolError::InvalidResponse),
    }
}

/// An operation fails exactly when a step of it failed, and then with that failure;
/// when bytes came in that are no whole packet, other than in a poll; when a packet
/// came that neither ends its wait well nor is passed over, or is passed over by the
/// last attempt; or when the timer of a poll fires without a connection.
pub proof fn law_fails<'p, E>(
    before: ClientModel,
    event: Event<'p, E>,
    now: u64,
    after: ClientModel,
    action: Option<Action<'p, E>>,
    error: MqttError<E>,
)
    requires
        machine::stepped(before, event, now, after, action),
    ensures
        action == Some(Action::<'p, E>::Done(Err(error))) <==> tells_of(event, before.pending)
            && match event {
            Event::Encoded(Err(failure)) => runs::reported::<E>(failure) == Some(error),
            Event::Sent(Err(failure)) | Event::Received(Err(failure)) => error
                == MqttError::Transport(failure),
            Event::Decoded(Err(failure)) => error == failure,
            Event::Decoded(Ok(None)) => before.pending != Pending::Decode(Awaiting::Incoming)
                && error == MqttError::<E>::Protocol(ProtocolError::InvalidResponse),
            Event::Decoded(Ok(Some(packet))) => {
                &&& before.pending matches Pending::Decode(awaiting)
                &&& !(awaiting is Incoming)
                &&& !satisfies(awaiting, packet)
                &&& !tries_again(before.pending, event)
                &&& error == refusal::<E>(awaiting, packet)
            },
            Event::TimerFired => before.state != ConnectionState::Connected && error is NotConnected,
            _ => false,
        },
{
}

/// Once an operation is over nothing is pending, and until then something is.
pub proof fn law_over_or_pending<'p, E>(
    before: ClientModel,
    event: Event<'p, E>,
    now: u64,
    after: ClientModel,
    action: Option<Action<'p, E>>,
)
    requires
        machine::stepped(before, event, now, after, action),
    ensures
        action matches Some(asked) ==> (asked is Done <==> after.pending is Idle),
{
}

/// The event tells that a connection was accepted.
pub open spec fn accepted<E>(pending: Pending, event: Event<E>) -> bool {
    &&& pending == Pending::Decode(Awaiting::ConnAck)
    &&& event matches Event::Decoded(Ok(Some(MqttPacket::ConnAck(connack))))
    &&& connack.reason_code == 0
}

/// The time of the last transmission is that of the step, exactly when the step
/// tells that anything but a CONNECT was sent, or that a connection was accepted.
/// Otherwise it stays.
pub proof fn law_time_of_last_transmission<'p, E>(
    before: ClientModel,
    event: Event<'p, E>,
    now: u64,
    after: ClientModel,
    action: Option<Action<'p, E>>,
)
    requires
        machine::stepped(before, event, now, after, action),
    ensures
        after.last_tx_time == if accepted(before.pending, event) || ({
            &&& before.pending matches Pending::Send(request)
            &&& !(request is Connect)
            &&& event matches Event::Sent(Ok(_))
        }) {
            now
        } else {
            before.last_tx_time
        },
{
}

/// A client is connected after a step exactly if the step tells that its connection
/// was accepted, or if it was connected and the step does not tell how the broker
/// answered a CONNECT. Any other packet in answer to a CONNECT disconnects it, and
/// nothing else changes its state.
pub proof fn law_state<'p, E>(
    before: ClientModel,
    event: Event<'p, E>,
    now: u64,
    after: ClientModel,
    action: Option<Action<'p, E>>,
)
    requires
        machine::stepped(before, event, now, after, action),
    ensures
        after.state == if accepted(before.pending, event) {
            ConnectionState::Connected
        } else if before.pending == Pending::Decode(Awaiting::ConnAck) && (event matches Event::Decoded(
            Ok(Some(_)),
        )) {
            ConnectionState::Disconnected
        } else {
            before.state
        },
{
}

/// No step changes the options of a client, its will or its identifiers.
pub proof fn law_step_keeps<'p, E>(
    before: ClientModel,
    event: Event<'p, E>,
    now: u64,
    after: ClientModel,
    action: Option<Action<'p, E>>,
)
    requires
        machine::stepped(before, event, now, after, action),
    ensures
        after.options == before.options,
        after.runtime_will == before.runtime_will,
        after.next_packet_id == before.next_packet_id,
{
}

} // verus!

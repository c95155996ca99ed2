//! What holds of each step of a client, and how many there are.

use crate::error::MqttError;
use crate::laws::{runs, waits};
use crate::machine;
use crate::machine::{
    Action, Awaiting, ClientModel, ConnectionState, Event, MqttEvent, Pending, Request,
    MAX_RECV_ATTEMPTS,
};
use crate::packet::{MqttPacket, QoS};
use vstd::prelude::*;

verus! {

/// The event of a CONNACK that accepts the connection.
pub open spec fn accepts_connection<E>(event: Event<E>) -> bool {
    event matches Event::Decoded(Ok(Some(MqttPacket::ConnAck(connack)))) && connack.reason_code == 0
}

/// Only a packet that answers a CONNECT changes the connection state, and only a
/// CONNACK of reason code zero makes a client connected. A failure of the
/// transport or of the codec changes it in no operation.
pub proof fn law_connection_state<'p, E>(client: ClientModel, event: Event<'p, E>, now: u64)
    ensures
        machine::transition(client, event, now) matches Some((next, action)) ==> next.state
            != client.state ==> client.pending == Pending::Decode(Awaiting::ConnAck)
            && event matches Event::Decoded(Ok(Some(packet))),
        machine::transition(client, event, now) matches Some((next, action)) ==> next.state
            == ConnectionState::Connected ==> client.state == ConnectionState::Connected
            || accepts_connection(event) && action == Action::<'p, E>::Done(Ok(None)),
{
}

/// The failure that an event reports, as an error of the client.
pub open spec fn failure<'p, E>(event: Event<'p, E>) -> Option<MqttError<E>> {
    match event {
        Event::Encoded(Err(e)) => runs::reported(e),
        Event::Decoded(Err(e)) => Some(e),
        Event::Sent(Err(e)) | Event::Received(Err(e)) => Some(MqttError::Transport(e)),
        _ => None,
    }
}

/// A step that fails ends its operation with that failure, and leaves the client
/// otherwise as it was.
pub proof fn law_failures_end_operations<'p, E>(
    client: ClientModel,
    event: Event<'p, E>,
    now: u64,
    error: MqttError<E>,
)
    requires
        failure(event) == Some(error),
        machine::transition(client, event, now) is Some,
    ensures
        machine::transition(client, event, now) == Some(
            (ClientModel { pending: Pending::Idle, ..client }, Action::<'p, E>::Done(Err(error))),
        ),
{
}

/// No step touches the options, the will or the packet identifiers of a client.
/// So an identifier that was spent on a message is not given out again because
/// the message failed.
pub proof fn law_steps_keep<'p, E>(client: ClientModel, event: Event<'p, E>, now: u64)
    ensures
        machine::transition(client, event, now) matches Some((next, action)) ==> {
            &&& next.options == client.options
            &&& next.runtime_will == client.runtime_will
            &&& next.next_packet_id == client.next_packet_id
        },
{
}

/// A step reports an event only for a PUBLISH packet that came in during a poll,
/// and reports that packet.
pub proof fn law_only_messages_are_reported<'p, E>(
    client: ClientModel,
    event: Event<'p, E>,
    now: u64,
    reported: MqttEvent<'p>,
)
    ensures
        ({
            &&& machine::transition(client, event, now) matches Some((next, action))
            &&& action == Action::<'p, E>::Done(Ok(Some(reported)))
        }) <==> ({
            &&& client.pending == Pending::Decode(Awaiting::Incoming)
            &&& event matches Event::Decoded(Ok(Some(MqttPacket::Publish(publish))))
            &&& reported == MqttEvent::Publish(publish)
        }),
{
}

/// The most steps that an operation has still to take.
pub open spec fn steps_left(pending: Pending) -> int {
    match pending {
        Pending::Idle => 0,
        Pending::Encode(request) => 1 + steps_to_send(request),
        Pending::Send(request) => steps_to_send(request),
        Pending::Receive(awaiting) => match awaiting {
            Awaiting::ConnAck => 2,
            Awaiting::Incoming => 3,
            _ => 2 * waits::attempts_left(awaiting) as int,
        },
        Pending::Decode(awaiting) => match awaiting {
            Awaiting::ConnAck | Awaiting::Incoming => 1,
            _ => 2 * waits::attempts_left(awaiting) - 1,
        },
    }
}

/// The most steps from the transmission of a request to the end of its operation.
pub open spec fn steps_to_send(request: Request) -> int {
    match request {
        Request::Connect => 3,
        Request::Publish(qos) => if qos == QoS::AtMostOnce {
            1
        } else {
            1 + 2 * MAX_RECV_ATTEMPTS
        },
        Request::Subscribe(_) => 1 + 2 * MAX_RECV_ATTEMPTS,
        Request::Ping => 1,
    }
}

/// Every step brings an operation nearer to its end, and it is over exactly when
/// a step says so.
pub proof fn law_steps_make_progress<'p, E>(client: ClientModel, event: Event<'p, E>, now: u64)
    requires
        client.wf(),
    ensures
        machine::transition(client, event, now) matches Some((next, action)) ==> {
            &&& 0 <= steps_left(next.pending) < steps_left(client.pending)
            &&& action is Done <==> next.pending is Idle
        },
{
}

/// No operation goes on forever, however the broker answers: a run is no longer
/// than the steps left at its start.
pub proof fn law_operations_end<'p, E>(client: ClientModel, events: Seq<(Event<'p, E>, u64)>)
    requires
        client.wf(),
    ensures
        runs::run(client, events) is Some ==> events.len() <= steps_left(client.pending),
    decreases events.len(),
{
    if events.len() > 0 {
        match machine::transition(client, events[0].0, events[0].1) {
            Some((next, action)) => {
                law_steps_make_progress(client, events[0].0, events[0].1);
                law_operations_end(next, events.drop_first());
            },
            None => {},
        }
    }
}

} // verus!

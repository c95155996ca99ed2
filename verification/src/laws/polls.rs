//! What a poll answers, whatever comes in and whenever.

use crate::error::MqttError;
use crate::laws::runs;
use crate::machine;
use crate::machine::{
    Awaiting, ClientModel, ConnectionState, Event, MqttEvent, Pending, Request,
};
use crate::packet::MqttPacket;
use crate::transport::ErrorPlaceHolder;
use vstd::prelude::*;

verus! {

/// The events of a poll that received before its timer fired. Bytes are decoded
/// where there are any.
pub open spec fn incoming_events<'p, E>(
    received: Result<usize, E>,
    decoded: Result<Option<MqttPacket<'p>>, MqttError<E>>,
    received_at: u64,
    decoded_at: u64,
) -> Seq<(Event<'p, E>, u64)> {
    let first = seq![(Event::Received(received), received_at)];
    match received {
        Ok(n) if n > 0 => first.push((Event::Decoded(decoded), decoded_at)),
        _ => first,
    }
}

/// What a poll that received answers: a message where one came, nothing for any
/// other packet, for too few bytes or for none, and otherwise the error.
pub open spec fn incoming_result<'p, E>(
    received: Result<usize, E>,
    decoded: Result<Option<MqttPacket<'p>>, MqttError<E>>,
) -> Result<Option<MqttEvent<'p>>, MqttError<E>> {
    match (received, decoded) {
        (Err(e), _) => Err(MqttError::Transport(e)),
        (Ok(n), _) if n == 0 => Ok(None),
        (_, Err(e)) => Err(e),
        (_, Ok(Some(MqttPacket::Publish(publish)))) => Ok(Some(MqttEvent::Publish(publish))),
        _ => Ok(None),
    }
}

/// A poll that receives before its timer fires ends with what came in, and changes
/// nothing of the client, whenever that is.
pub proof fn law_poll_receives<'p, E>(
    client: ClientModel,
    begun_at: u64,
    received: Result<usize, E>,
    decoded: Result<Option<MqttPacket<'p>>, MqttError<E>>,
    received_at: u64,
    decoded_at: u64,
)
    requires
        client.state == ConnectionState::Connected,
    ensures
        machine::poll_begun::<E>(client, begun_at) matches Ok((wait, begun)) && runs::ends(
            begun,
            incoming_events(received, decoded, received_at, decoded_at),
            ClientModel { pending: Pending::Idle, ..client },
            incoming_result(received, decoded),
        ),
{
    let begun = ClientModel { pending: Pending::Receive(Awaiting::Incoming), ..client };
    let e0 = (Event::<'p, E>::Received(received), received_at);
    let e1 = (Event::<'p, E>::Decoded(decoded), decoded_at);
    runs::lemma_run_one(begun, e0);
    runs::lemma_run_two(begun, e0, e1);
    assert(seq![e0].push(e1) =~= seq![e0, e1]);
}

/// The events of a poll whose timer fired first. The PINGREQ is sent where it
/// could be encoded.
pub open spec fn timer_events<'p, E>(
    encoded: Result<usize, MqttError<ErrorPlaceHolder>>,
    sent: Result<(), E>,
    times: (u64, u64, u64),
) -> Seq<(Event<'p, E>, u64)> {
    let first = seq![(Event::TimerFired, times.0), (Event::Encoded(encoded), times.1)];
    if encoded is Ok {
        first.push((Event::Sent(sent), times.2))
    } else {
        first
    }
}

/// A poll whose timer fires sends a PINGREQ and reports no message: it answers
/// nothing once that is out, and otherwise the error. Only a PINGREQ that went out
/// counts as a transmission.
pub proof fn law_poll_times_out<'p, E>(
    client: ClientModel,
    begun_at: u64,
    encoded: Result<usize, MqttError<ErrorPlaceHolder>>,
    sent: Result<(), E>,
    times: (u64, u64, u64),
)
    requires
        client.state == ConnectionState::Connected,
        encoded matches Err(e) ==> !(e is Transport),
    ensures
        machine::poll_begun::<E>(client, begun_at) matches Ok((wait, begun)) && runs::ends(
            begun,
            timer_events::<'p, E>(encoded, sent, times),
            ClientModel {
                last_tx_time: if encoded is Ok && sent is Ok {
                    times.2
                } else {
                    client.last_tx_time
                },
                pending: Pending::Idle,
                ..client
            },
            match (encoded, sent) {
                (Err(e), _) => Err(runs::reported(e)->0),
                (_, Err(e)) => Err(MqttError::Transport(e)),
                _ => Ok(None),
            },
        ),
{
    let begun = ClientModel { pending: Pending::Receive(Awaiting::Incoming), ..client };
    let sending = ClientModel { pending: Pending::Send(Request::Ping), ..client };
    let e0 = (Event::<'p, E>::TimerFired, times.0);
    let e1 = (Event::<'p, E>::Encoded(encoded), times.1);
    let e2 = (Event::<'p, E>::Sent(sent), times.2);
    runs::lemma_run_two(begun, e0, e1);
    runs::lemma_run_one(sending, e2);
    runs::lemma_run_concat(begun, seq![e0, e1], seq![e2]);
    assert(seq![e0, e1].push(e2) =~= seq![e0, e1] + seq![e2]);
}

} // verus!

//! How much an operation sends and receives at most, however it goes.

use crate::laws::runs;
use crate::machine;
use crate::machine::{
    Action, Awaiting, ClientModel, Event, Pending, Request, MAX_RECV_ATTEMPTS,
};
use crate::packet::QoS;
use vstd::prelude::*;

verus! {

/// How often a client asked to send.
pub open spec fn sends<'p, E>(actions: Seq<Action<'p, E>>) -> nat
    decreases actions.len(),
{
    if actions.len() == 0 {
        0
    } else {
        sends(actions.drop_first()) + if actions[0] is Send {
            1nat
        } else {
            0
        }
    }
}

/// Whenever the client asked to receive, its packet had been sent: of the events
/// that it had heard of by then, the second told so.
pub open spec fn receives_once_sent<'p, E>(
    events: Seq<(Event<'p, E>, u64)>,
    actions: Seq<Action<'p, E>>,
) -> bool {
    forall|i: int|
        0 <= i < actions.len() && (#[trigger] actions[i]) is Receive ==> 1 <= i < events.len()
            && (events[1].0 matches Event::Sent(Ok(_)))
}

/// The receives that a request can still lead to.
spec fn receives_after(request: Request) -> nat {
    match request {
        Request::Connect => 1,
        Request::Publish(qos) => if qos == QoS::AtMostOnce {
            0
        } else {
            MAX_RECV_ATTEMPTS as nat
        },
        Request::Subscribe(_) => MAX_RECV_ATTEMPTS as nat,
        Request::Ping => 0,
    }
}

/// The receives that a pending step can still lead to.
spec fn receives_left(pending: Pending) -> nat {
    match pending {
        Pending::Idle => 0,
        Pending::Encode(request) | Pending::Send(request) => receives_after(request),
        Pending::Receive(awaiting) | Pending::Decode(awaiting) => match awaiting {
            Awaiting::PubAck { attempts } if attempts > 1 => (attempts - 1) as nat,
            Awaiting::SubAck { packet_id, attempts } if attempts > 1 => (attempts - 1) as nat,
            _ => 0,
        },
    }
}

/// The sends that a pending step can still lead to.
spec fn sends_left(pending: Pending) -> nat {
    match pending {
        Pending::Encode(_) | Pending::Receive(Awaiting::Incoming) => 1,
        _ => 0,
    }
}

/// A run asks to receive and to send no more often than the step pending at its
/// start can lead to.
proof fn lemma_traffic_left<'p, E>(client: ClientModel, events: Seq<(Event<'p, E>, u64)>)
    ensures
        runs::run(client, events) matches Some((after, actions)) ==> runs::receives(actions)
            <= receives_left(client.pending) && sends(actions) <= sends_left(client.pending),
    decreases events.len(),
{
    if events.len() > 0 {
        match machine::transition(client, events[0].0, events[0].1) {
            Some((next, action)) => {
                lemma_traffic_left(next, events.drop_first());
                match runs::run(next, events.drop_first()) {
                    Some((after, actions)) => {
                        assert((seq![action] + actions).drop_first() =~= actions);
                    },
                    None => {},
                }
            },
            None => {},
        }
    }
}

/// An operation whose packet is to be encoded asks to receive only once that
/// packet was sent.
proof fn lemma_receives_once_sent<'p, E>(client: ClientModel, events: Seq<(Event<'p, E>, u64)>)
    requires
        client.pending is Encode,
    ensures
        runs::run(client, events) matches Some((after, actions)) ==> receives_once_sent(
            events,
            actions,
        ),
{
    if runs::run(client, events) is Some && events.len() > 0 {
        let (after, actions) = runs::run(client, events)->0;
        let (sending, first) = machine::transition(client, events[0].0, events[0].1)->0;
        let rest = events.drop_first();
        runs::lemma_run_asks(client, events);
        assert(actions[0] == first);
        if rest.len() > 0 {
            assert(rest[0] == events[1]);
            let (next, second) = machine::transition(sending, rest[0].0, rest[0].1)->0;
            let (_, later) = runs::run(next, rest.drop_first())->0;
            assert(actions[1] == second) by {
                assert(runs::run(sending, rest) == Some((after, seq![second] + later)));
                assert(actions == seq![first] + (seq![second] + later));
            }
            if events[1].0 matches Event::Sent(Err(_)) {
                assert(next.pending is Idle);
                assert(rest.drop_first().len() == 0);
            }
        }
    }
}

/// However a message goes and whatever the broker answers, the client sends one
/// packet at most, receives only once that is sent, and receives at most sixteen
/// times; for a message that asks for no acknowledgement it does
/// not receive at all.
pub proof fn law_publish_traffic<'m, 'p, E>(
    client: ClientModel,
    topic: &'m str,
    payload: &'m [u8],
    qos: QoS,
    retain: bool,
    events: Seq<(Event<'p, E>, u64)>,
    after: ClientModel,
    actions: Seq<Action<'p, E>>,
)
    requires
        machine::publish_begun::<E>(client, topic, payload, qos, retain) matches Ok((_, begun))
            && runs::run(begun, events) == Some((after, actions)),
    ensures
        runs::receives(actions) <= 16,
        qos == QoS::AtMostOnce ==> runs::receives(actions) == 0,
        sends(actions) <= 1,
        receives_once_sent(events, actions),
{
    let begun = machine::publish_begun::<E>(client, topic, payload, qos, retain)->Ok_0.1;
    lemma_traffic_left(begun, events);
    lemma_receives_once_sent(begun, events);
}

/// However a subscription goes and whatever the broker answers, the client sends
/// one packet at most, receives only once that is sent, and receives at most sixteen
/// times.
pub proof fn law_subscribe_traffic<'m, 'p, E>(
    client: ClientModel,
    topic: &'m str,
    qos: QoS,
    events: Seq<(Event<'p, E>, u64)>,
    after: ClientModel,
    actions: Seq<Action<'p, E>>,
)
    requires
        machine::subscribe_begun::<E>(client, topic, qos) matches Ok((_, begun)) && runs::run(
            begun,
            events,
        ) == Some((after, actions)),
    ensures
        runs::receives(actions) <= 16,
        sends(actions) <= 1,
        receives_once_sent(events, actions),
{
    let begun = machine::subscribe_begun::<E>(client, topic, qos)->Ok_0.1;
    lemma_traffic_left(begun, events);
    lemma_receives_once_sent(begun, events);
}

/// However a connection attempt goes, the client sends one packet at most, and
/// receives at most once, after that packet is sent.
pub proof fn law_connect_traffic<'p, E>(
    client: ClientModel,
    events: Seq<(Event<'p, E>, u64)>,
    after: ClientModel,
    actions: Seq<Action<'p, E>>,
)
    requires
        runs::run(machine::connect_begun(client), events) == Some((after, actions)),
    ensures
        runs::receives(actions) <= 1,
        sends(actions) <= 1,
        receives_once_sent(events, actions),
{
    let begun = machine::connect_begun(client);
    lemma_traffic_left(begun, events);
    lemma_receives_once_sent(begun, events);
}

/// However a poll goes, the client sends one packet at most, and does not receive
/// again after the one receive that the poll began with.
pub proof fn law_poll_traffic<'p, E>(
    client: ClientModel,
    begun_at: u64,
    events: Seq<(Event<'p, E>, u64)>,
    after: ClientModel,
    actions: Seq<Action<'p, E>>,
)
    requires
        machine::poll_begun::<E>(client, begun_at) matches Ok((_, begun)) && runs::run(
            begun,
            events,
        ) == Some((after, actions)),
    ensures
        runs::receives(actions) == 0,
        sends(actions) <= 1,
{
    let begun = machine::poll_begun::<E>(client, begun_at)->Ok_0.1;
    lemma_traffic_left(begun, events);
}

} // verus!

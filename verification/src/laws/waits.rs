//! What publishing and subscribing answer, however the broker replies and
//! however long that takes.

use crate::error::{MqttError, ProtocolError};
use crate::laws::runs;
use crate::laws::runs::Reply;
use crate::machine;
use crate::machine::{
    Action, Awaiting, ClientModel, ConnectionState, Event, MqttEvent, Pending, Request,
    MAX_RECV_ATTEMPTS,
};
use crate::packet::{MqttPacket, Publish, QoS, Subscribe};
use crate::transport::ErrorPlaceHolder;
use vstd::prelude::*;

verus! {

/// What a client asks for while it passes over replies: to decode each, and then
/// to receive again.
pub open spec fn waiting_actions<'p, E>(replies: Seq<Reply<'p, E>>) -> Seq<Action<'p, E>>
    decreases replies.len(),
{
    if replies.len() == 0 {
        Seq::empty()
    } else {
        seq![Action::Decode(replies[0].len), Action::Receive] + waiting_actions(
            replies.drop_first(),
        )
    }
}

/// What a client asks for until a reply ends its wait with a result.
pub open spec fn closing_actions<'p, E>(
    replies: Seq<Reply<'p, E>>,
    reply: Reply<'p, E>,
    result: Result<Option<MqttEvent<'p>>, MqttError<E>>,
) -> Seq<Action<'p, E>> {
    waiting_actions(replies) + seq![Action::Decode(reply.len), Action::Done(result)]
}

/// A reply that a wait for an acknowledgement passes over.
pub open spec fn reply_passed_over<E>(reply: Reply<E>) -> bool {
    reply.decoded matches Ok(Some(packet)) && (packet is PingResp || packet is Publish)
}

/// Replies that a wait for an acknowledgement passes over.
pub open spec fn all_passed_over<E>(replies: Seq<Reply<E>>) -> bool {
    forall|i: int| 0 <= i < replies.len() ==> reply_passed_over(#[trigger] replies[i])
}

/// The acknowledgement that a wait is for: any PUBACK, or a SUBACK that names the
/// identifier and whose first code is there and below 0x80.
pub open spec fn acknowledged(awaiting: Awaiting, packet: MqttPacket) -> bool {
    match awaiting {
        Awaiting::PubAck { attempts } => packet is PubAck,
        Awaiting::SubAck { packet_id, attempts } => {
            &&& packet matches MqttPacket::SubAck(suback)
            &&& suback.packet_id == packet_id
            &&& suback.reason_codes@.len() > 0
            &&& suback.reason_codes@[0] < 0x80
        },
        _ => false,
    }
}

/// How a reply that is not passed over ends a wait for an acknowledgement.
pub open spec fn wait_result<'p, E>(awaiting: Awaiting, reply: Reply<'p, E>) -> Result<
    Option<MqttEvent<'p>>,
    MqttError<E>,
> {
    match reply.decoded {
        Ok(Some(packet)) if acknowledged(awaiting, packet) => Ok(None),
        Ok(_) => Err(MqttError::Protocol(ProtocolError::InvalidResponse)),
        Err(e) => Err(e),
    }
}

/// The receive attempts left of a wait; none for what is no wait for an acknowledgement.
pub open spec fn attempts_left(awaiting: Awaiting) -> nat {
    match awaiting {
        Awaiting::PubAck { attempts } => attempts as nat,
        Awaiting::SubAck { packet_id, attempts } => attempts as nat,
        _ => 0,
    }
}

/// The same wait with another number of attempts left.
pub open spec fn with_attempts(awaiting: Awaiting, left: nat) -> Awaiting {
    match awaiting {
        Awaiting::PubAck { attempts } => Awaiting::PubAck { attempts: left as usize },
        Awaiting::SubAck { packet_id, attempts } => Awaiting::SubAck {
            packet_id,
            attempts: left as usize,
        },
        _ => awaiting,
    }
}

/// A client whose operation is over, with nothing else changed.
pub open spec fn idle(client: ClientModel) -> ClientModel {
    ClientModel { pending: Pending::Idle, ..client }
}

/// While a client waits for an acknowledgement it passes over PINGRESP and
/// PUBLISH packets, whenever they come, and each costs it one attempt.
pub proof fn law_wait_goes_on<'p, E>(
    client: ClientModel,
    awaiting: Awaiting,
    replies: Seq<Reply<'p, E>>,
    times: Seq<(u64, u64)>,
)
    requires
        client.pending == Pending::Receive(awaiting),
        replies.len() < attempts_left(awaiting),
        times.len() == replies.len(),
        all_passed_over(replies),
    ensures
        runs::run(client, runs::exchange(replies, times)) == Some(
            (
                ClientModel {
                    pending: Pending::Receive(
                        with_attempts(awaiting, (attempts_left(awaiting) - replies.len()) as nat),
                    ),
                    ..client
                },
                waiting_actions(replies),
            ),
        ),
    decreases replies.len(),
{
    if replies.len() > 0 {
        let rest = replies.drop_first();
        let next = with_attempts(awaiting, (attempts_left(awaiting) - 1) as nat);
        let waiting = ClientModel { pending: Pending::Receive(next), ..client };
        let head = runs::reply_events(replies[0], times[0].0, times[0].1);
        assert(reply_passed_over(replies[0]));
        runs::lemma_run_two(client, head[0], head[1]);
        assert forall|i: int| 0 <= i < rest.len() implies reply_passed_over(#[trigger] rest[i]) by {
            assert(rest[i] == replies[i + 1]);
        }
        law_wait_goes_on(waiting, next, rest, times.drop_first());
        runs::lemma_run_concat(client, head, runs::exchange(rest, times.drop_first()));
    }
}

/// The first reply that is not passed over ends a wait for an acknowledgement,
/// where it comes within the attempts left and whenever it comes: well if it is
/// the acknowledgement waited for, and otherwise with an error. The connection
/// stands either way.
pub proof fn law_wait_ends<'p, E>(
    client: ClientModel,
    awaiting: Awaiting,
    replies: Seq<Reply<'p, E>>,
    reply: Reply<'p, E>,
    times: Seq<(u64, u64)>,
)
    requires
        client.pending == Pending::Receive(awaiting),
        replies.len() < attempts_left(awaiting),
        times.len() == replies.len() + 1,
        all_passed_over(replies),
        !reply_passed_over(reply),
    ensures
        runs::run(client, runs::exchange(replies.push(reply), times)) == Some(
            (idle(client), closing_actions(replies, reply, wait_result(awaiting, reply))),
        ),
{
    law_wait_goes_on(client, awaiting, replies, times.drop_last());
    let left = with_attempts(awaiting, (attempts_left(awaiting) - replies.len()) as nat);
    let waiting = ClientModel { pending: Pending::Receive(left), ..client };
    let tail = runs::reply_events(reply, times.last().0, times.last().1);
    runs::lemma_exchange_push(replies, reply, times);
    runs::lemma_run_two(waiting, tail[0], tail[1]);
    runs::lemma_run_concat(client, runs::exchange(replies, times.drop_last()), tail);
}

/// A transport that fails ends a wait for an acknowledgement with its error. The
/// connection stands.
pub proof fn law_wait_breaks<'p, E>(
    client: ClientModel,
    awaiting: Awaiting,
    replies: Seq<Reply<'p, E>>,
    times: Seq<(u64, u64)>,
    error: E,
    failed_at: u64,
)
    requires
        client.pending == Pending::Receive(awaiting),
        replies.len() < attempts_left(awaiting),
        times.len() == replies.len(),
        all_passed_over(replies),
    ensures
        runs::run(
            client,
            runs::exchange(replies, times) + seq![(Event::Received(Err(error)), failed_at)],
        ) == Some(
            (
                idle(client),
                waiting_actions(replies) + seq![
                    Action::<'p, E>::Done(Err(MqttError::Transport(error))),
                ],
            ),
        ),
{
    law_wait_goes_on(client, awaiting, replies, times);
    let left = with_attempts(awaiting, (attempts_left(awaiting) - replies.len()) as nat);
    let waiting = ClientModel { pending: Pending::Receive(left), ..client };
    let tail = seq![(Event::<'p, E>::Received(Err(error)), failed_at)];
    runs::lemma_run_one(waiting, tail[0]);
    runs::lemma_run_concat(client, runs::exchange(replies, times), tail);
}

/// A wait for an acknowledgement gives up when its last attempt brought a packet
/// that is passed over. The connection stands.
pub proof fn law_wait_gives_up<'p, E>(
    client: ClientModel,
    awaiting: Awaiting,
    replies: Seq<Reply<'p, E>>,
    times: Seq<(u64, u64)>,
)
    requires
        client.pending == Pending::Receive(awaiting),
        0 < replies.len() == attempts_left(awaiting),
        times.len() == replies.len(),
        all_passed_over(replies),
    ensures
        runs::run(client, runs::exchange(replies, times)) == Some(
            (
                idle(client),
                closing_actions(
                    replies.drop_last(),
                    replies.last(),
                    Err(MqttError::Protocol(ProtocolError::InvalidResponse)),
                ),
            ),
        ),
{
    let before = replies.drop_last();
    let reply = replies.last();
    assert forall|i: int| 0 <= i < before.len() implies reply_passed_over(#[trigger] before[i]) by {
        assert(before[i] == replies[i]);
    }
    assert(reply_passed_over(replies[replies.len() - 1]));
    law_wait_goes_on(client, awaiting, before, times.drop_last());
    let waiting = ClientModel { pending: Pending::Receive(with_attempts(awaiting, 1)), ..client };
    let tail = runs::reply_events(reply, times.last().0, times.last().1);
    assert(before.push(reply) =~= replies);
    runs::lemma_exchange_push(before, reply, times);
    runs::lemma_run_two(waiting, tail[0], tail[1]);
    runs::lemma_run_concat(client, runs::exchange(before, times.drop_last()), tail);
}

/// Each reply that is passed over has the client receive once more.
proof fn lemma_waiting_receives<'p, E>(replies: Seq<Reply<'p, E>>)
    ensures
        runs::receives(waiting_actions(replies)) == replies.len(),
    decreases replies.len(),
{
    if replies.len() > 0 {
        let a0 = Action::<'p, E>::Decode(replies[0].len);
        lemma_waiting_receives(replies.drop_first());
        runs::lemma_receives_two(a0, Action::<'p, E>::Receive);
        runs::lemma_receives_concat(
            seq![a0, Action::Receive],
            waiting_actions(replies.drop_first()),
        );
    }
}

/// The actions of an operation that gives up ask to receive once for each reply.
proof fn lemma_gives_up_receives<'p, E>(len: usize, replies: Seq<Reply<'p, E>>)
    requires
        replies.len() > 0,
    ensures
        runs::receives(
            seq![Action::Send(len), Action::Receive] + closing_actions(
                replies.drop_last(),
                replies.last(),
                Err(MqttError::Protocol(ProtocolError::InvalidResponse)),
            ),
        ) == replies.len(),
{
    let first = seq![Action::<'p, E>::Send(len), Action::Receive];
    let middle = waiting_actions(replies.drop_last());
    let end = seq![
        Action::<'p, E>::Decode(replies.last().len),
        Action::Done(Err(MqttError::Protocol(ProtocolError::InvalidResponse))),
    ];
    lemma_waiting_receives(replies.drop_last());
    runs::lemma_receives_two(first[0], first[1]);
    runs::lemma_receives_two(end[0], end[1]);
    runs::lemma_receives_concat(middle, end);
    runs::lemma_receives_concat(first, middle + end);
}

/// The client once a message that asks for an acknowledgement is over.
pub open spec fn published(client: ClientModel, sent_at: u64) -> ClientModel {
    ClientModel {
        next_packet_id: machine::id_after(client.next_packet_id),
        last_tx_time: sent_at,
        pending: Pending::Idle,
        ..client
    }
}

/// A message that asks for an acknowledgement, begun: its packet carries the next
/// identifier, and the client goes through these events, asks for this, and is
/// then done with it.
pub open spec fn publish_goes<'m, 'p, E>(
    client: ClientModel,
    begun: Result<(Publish<'m>, ClientModel), MqttError<E>>,
    events: Seq<(Event<'p, E>, u64)>,
    actions: Seq<Action<'p, E>>,
    sent_at: u64,
) -> bool {
    &&& begun matches Ok((publish, sending))
    &&& publish.packet_id == Some(machine::id_after(client.next_packet_id))
    &&& runs::run(sending, events) == Some((published(client, sent_at), actions))
}

/// A subscription, begun: its packet carries the next identifier, and the client
/// goes through these events, asks for this, and is then done with it.
pub open spec fn subscribe_goes<'m, 'p, E>(
    client: ClientModel,
    begun: Result<(Subscribe<'m>, ClientModel), MqttError<E>>,
    events: Seq<(Event<'p, E>, u64)>,
    actions: Seq<Action<'p, E>>,
    sent_at: u64,
) -> bool {
    &&& begun matches Ok((subscribe, sending))
    &&& subscribe.packet_id == machine::id_after(client.next_packet_id)
    &&& runs::run(sending, events) == Some((published(client, sent_at), actions))
}

/// The wait of a message that was sent.
pub open spec fn awaiting_puback() -> Awaiting {
    Awaiting::PubAck { attempts: MAX_RECV_ATTEMPTS }
}

/// The wait of a subscription that was sent.
pub open spec fn awaiting_suback(client: ClientModel) -> Awaiting {
    Awaiting::SubAck {
        packet_id: machine::id_after(client.next_packet_id),
        attempts: MAX_RECV_ATTEMPTS,
    }
}

/// The client that has sent its packet and waits.
pub open spec fn waiting(client: ClientModel, sent_at: u64, awaiting: Awaiting) -> ClientModel {
    ClientModel { pending: Pending::Receive(awaiting), ..published(client, sent_at) }
}

/// From the wait of a message to the whole of it.
proof fn lemma_publish_then_wait<'m, 'p, E>(
    client: ClientModel,
    topic: &'m str,
    payload: &'m [u8],
    qos: QoS,
    retain: bool,
    len: usize,
    encoded_at: u64,
    sent_at: u64,
    events: Seq<(Event<'p, E>, u64)>,
    actions: Seq<Action<'p, E>>,
)
    requires
        client.state == ConnectionState::Connected,
        qos != QoS::AtMostOnce,
        runs::run(waiting(client, sent_at, awaiting_puback()), events) == Some(
            (published(client, sent_at), actions),
        ),
    ensures
        publish_goes(
            client,
            machine::publish_begun::<E>(client, topic, payload, qos, retain),
            runs::sent_events(len, encoded_at, sent_at) + events,
            seq![Action::Send(len), Action::Receive] + actions,
            sent_at,
        ),
{
    let sending = machine::publish_begun::<E>(client, topic, payload, qos, retain)->Ok_0.1;
    let first = runs::sent_events::<'p, E>(len, encoded_at, sent_at);
    runs::lemma_run_two(sending, first[0], first[1]);
    runs::lemma_run_concat(sending, first, events);
}

/// From the wait of a subscription to the whole of it.
proof fn lemma_subscribe_then_wait<'m, 'p, E>(
    client: ClientModel,
    topic: &'m str,
    qos: QoS,
    len: usize,
    encoded_at: u64,
    sent_at: u64,
    events: Seq<(Event<'p, E>, u64)>,
    actions: Seq<Action<'p, E>>,
)
    requires
        client.state == ConnectionState::Connected,
        runs::run(waiting(client, sent_at, awaiting_suback(client)), events) == Some(
            (published(client, sent_at), actions),
        ),
    ensures
        subscribe_goes(
            client,
            machine::subscribe_begun::<E>(client, topic, qos),
            runs::sent_events(len, encoded_at, sent_at) + events,
            seq![Action::Send(len), Action::Receive] + actions,
            sent_at,
        ),
{
    let sending = machine::subscribe_begun::<E>(client, topic, qos)->Ok_0.1;
    let first = runs::sent_events::<'p, E>(len, encoded_at, sent_at);
    runs::lemma_run_two(sending, first[0], first[1]);
    runs::lemma_run_concat(sending, first, events);
}

/// Where no step fails, a message that asks for no acknowledgement is published
/// once its bytes are out. No identifier is spent on it and nothing is received.
pub proof fn law_publish_at_most_once<'m, 'p, E>(
    client: ClientModel,
    topic: &'m str,
    payload: &'m [u8],
    retain: bool,
    len: usize,
    encoded_at: u64,
    sent_at: u64,
)
    requires
        client.state == ConnectionState::Connected,
    ensures
        machine::publish_begun::<E>(client, topic, payload, QoS::AtMostOnce, retain) matches Ok(
            (publish, sending),
        ) && publish.packet_id is None && runs::run::<E>(
            sending,
            runs::sent_events(len, encoded_at, sent_at),
        ) == Some(
            (
                ClientModel { last_tx_time: sent_at, pending: Pending::Idle, ..client },
                seq![Action::<'p, E>::Send(len), Action::Done(Ok(None))],
            ),
        ),
{
    let sending = machine::publish_begun::<E>(
        client,
        topic,
        payload,
        QoS::AtMostOnce,
        retain,
    )->Ok_0.1;
    let events = runs::sent_events::<'p, E>(len, encoded_at, sent_at);
    runs::lemma_run_two(sending, events[0], events[1]);
}

/// A message that asks for an acknowledgement is published when, once it is sent,
/// a PUBACK comes within sixteen receives and after nothing but PINGRESP and
/// PUBLISH packets. Any other reply in its place is an error, as is one that
/// cannot be decoded. The client stays connected whichever it is, and all this
/// whenever the replies come.
pub proof fn law_publish_acknowledged<'m, 'p, E>(
    client: ClientModel,
    topic: &'m str,
    payload: &'m [u8],
    qos: QoS,
    retain: bool,
    len: usize,
    encoded_at: u64,
    sent_at: u64,
    replies: Seq<Reply<'p, E>>,
    reply: Reply<'p, E>,
    times: Seq<(u64, u64)>,
)
    requires
        client.state == ConnectionState::Connected,
        qos != QoS::AtMostOnce,
        replies.len() < 16,
        times.len() == replies.len() + 1,
        all_passed_over(replies),
        !reply_passed_over(reply),
    ensures
        publish_goes(
            client,
            machine::publish_begun::<E>(client, topic, payload, qos, retain),
            runs::sent_events(len, encoded_at, sent_at) + runs::exchange(
                replies.push(reply),
                times,
            ),
            seq![Action::Send(len), Action::Receive] + closing_actions(
                replies,
                reply,
                match reply.decoded {
                    Ok(Some(packet)) if packet is PubAck => Ok(None),
                    Ok(_) => Err(MqttError::Protocol(ProtocolError::InvalidResponse)),
                    Err(e) => Err(e),
                },
            ),
            sent_at,
        ),
{
    let awaiting = awaiting_puback();
    law_wait_ends(waiting(client, sent_at, awaiting), awaiting, replies, reply, times);
    lemma_publish_then_wait(
        client,
        topic,
        payload,
        qos,
        retain,
        len,
        encoded_at,
        sent_at,
        runs::exchange(replies.push(reply), times),
        closing_actions(replies, reply, wait_result(awaiting, reply)),
    );
}

/// A message that asks for an acknowledgement fails, after exactly sixteen
/// receives, when each brought a packet that is passed over. The client stays connected.
pub proof fn law_publish_gives_up<'m, 'p, E>(
    client: ClientModel,
    topic: &'m str,
    payload: &'m [u8],
    qos: QoS,
    retain: bool,
    len: usize,
    encoded_at: u64,
    sent_at: u64,
    replies: Seq<Reply<'p, E>>,
    times: Seq<(u64, u64)>,
)
    requires
        client.state == ConnectionState::Connected,
        qos != QoS::AtMostOnce,
        replies.len() == 16,
        times.len() == replies.len(),
        all_passed_over(replies),
    ensures
        ({
            let actions = seq![Action::Send(len), Action::Receive] + closing_actions(
                replies.drop_last(),
                replies.last(),
                Err(MqttError::Protocol(ProtocolError::InvalidResponse)),
            );
            &&& publish_goes(
                client,
                machine::publish_begun::<E>(client, topic, payload, qos, retain),
                runs::sent_events(len, encoded_at, sent_at) + runs::exchange(replies, times),
                actions,
                sent_at,
            )
            &&& runs::receives(actions) == 16
        }),
{
    let awaiting = awaiting_puback();
    law_wait_gives_up(waiting(client, sent_at, awaiting), awaiting, replies, times);
    lemma_gives_up_receives(len, replies);
    lemma_publish_then_wait(
        client,
        topic,
        payload,
        qos,
        retain,
        len,
        encoded_at,
        sent_at,
        runs::exchange(replies, times),
        closing_actions(
            replies.drop_last(),
            replies.last(),
            Err(MqttError::Protocol(ProtocolError::InvalidResponse)),
        ),
    );
}

/// A message that asks for an acknowledgement fails with the error of a transport
/// that fails while the client waits. The client stays connected.
pub proof fn law_publish_breaks<'m, 'p, E>(
    client: ClientModel,
    topic: &'m str,
    payload: &'m [u8],
    qos: QoS,
    retain: bool,
    len: usize,
    encoded_at: u64,
    sent_at: u64,
    replies: Seq<Reply<'p, E>>,
    times: Seq<(u64, u64)>,
    error: E,
    failed_at: u64,
)
    requires
        client.state == ConnectionState::Connected,
        qos != QoS::AtMostOnce,
        replies.len() < 16,
        times.len() == replies.len(),
        all_passed_over(replies),
    ensures
        publish_goes(
            client,
            machine::publish_begun::<E>(client, topic, payload, qos, retain),
            runs::sent_events(len, encoded_at, sent_at) + (runs::exchange(replies, times) + seq![
                (Event::Received(Err(error)), failed_at),
            ]),
            seq![Action::Send(len), Action::Receive] + (waiting_actions(replies) + seq![
                Action::Done(Err(MqttError::Transport(error))),
            ]),
            sent_at,
        ),
{
    let awaiting = awaiting_puback();
    law_wait_breaks(
        waiting(client, sent_at, awaiting),
        awaiting,
        replies,
        times,
        error,
        failed_at,
    );
    lemma_publish_then_wait(
        client,
        topic,
        payload,
        qos,
        retain,
        len,
        encoded_at,
        sent_at,
        runs::exchange(replies, times) + seq![(Event::Received(Err(error)), failed_at)],
        waiting_actions(replies) + seq![Action::Done(Err(MqttError::Transport(error)))],
    );
}

/// A subscription is made when, once it is sent, a SUBACK comes within sixteen
/// receives and after nothing but PINGRESP and PUBLISH packets, names the identifier
/// of the subscription, and has a first code, which is below 0x80.
/// Any other reply in its place is an error, as is one that cannot be decoded. The
/// client stays connected whichever it is, and all this whenever the replies come.
pub proof fn law_subscribe_granted<'m, 'p, E>(
    client: ClientModel,
    topic: &'m str,
    qos: QoS,
    len: usize,
    encoded_at: u64,
    sent_at: u64,
    replies: Seq<Reply<'p, E>>,
    reply: Reply<'p, E>,
    times: Seq<(u64, u64)>,
)
    requires
        client.state == ConnectionState::Connected,
        replies.len() < 16,
        times.len() == replies.len() + 1,
        all_passed_over(replies),
        !reply_passed_over(reply),
    ensures
        subscribe_goes(
            client,
            machine::subscribe_begun::<E>(client, topic, qos),
            runs::sent_events(len, encoded_at, sent_at) + runs::exchange(
                replies.push(reply),
                times,
            ),
            seq![Action::Send(len), Action::Receive] + closing_actions(
                replies,
                reply,
                match reply.decoded {
                    Ok(Some(MqttPacket::SubAck(suback))) if suback.packet_id == machine::id_after(
                        client.next_packet_id,
                    ) && suback.reason_codes@.len() > 0 && suback.reason_codes@[0] < 0x80 => Ok(
                        None,
                    ),
                    Ok(_) => Err(MqttError::Protocol(ProtocolError::InvalidResponse)),
                    Err(e) => Err(e),
                },
            ),
            sent_at,
        ),
{
    let awaiting = awaiting_suback(client);
    law_wait_ends(waiting(client, sent_at, awaiting), awaiting, replies, reply, times);
    lemma_subscribe_then_wait(
        client,
        topic,
        qos,
        len,
        encoded_at,
        sent_at,
        runs::exchange(replies.push(reply), times),
        closing_actions(replies, reply, wait_result(awaiting, reply)),
    );
}

/// A subscription fails, after exactly sixteen receives, when each brought a
/// packet that is passed over. The client stays connected.
pub proof fn law_subscribe_gives_up<'m, 'p, E>(
    client: ClientModel,
    topic: &'m str,
    qos: QoS,
    len: usize,
    encoded_at: u64,
    sent_at: u64,
    replies: Seq<Reply<'p, E>>,
    times: Seq<(u64, u64)>,
)
    requires
        client.state == ConnectionState::Connected,
        replies.len() == 16,
        times.len() == replies.len(),
        all_passed_over(replies),
    ensures
        ({
            let actions = seq![Action::Send(len), Action::Receive] + closing_actions(
                replies.drop_last(),
                replies.last(),
                Err(MqttError::Protocol(ProtocolError::InvalidResponse)),
            );
            &&& subscribe_goes(
                client,
                machine::subscribe_begun::<E>(client, topic, qos),
                runs::sent_events(len, encoded_at, sent_at) + runs::exchange(replies, times),
                actions,
                sent_at,
            )
            &&& runs::receives(actions) == 16
        }),
{
    let awaiting = awaiting_suback(client);
    law_wait_gives_up(waiting(client, sent_at, awaiting), awaiting, replies, times);
    lemma_gives_up_receives(len, replies);
    lemma_subscribe_then_wait(
        client,
        topic,
        qos,
        len,
        encoded_at,
        sent_at,
        runs::exchange(replies, times),
        closing_actions(
            replies.drop_last(),
            replies.last(),
            Err(MqttError::Protocol(ProtocolError::InvalidResponse)),
        ),
    );
}

/// A subscription fails with the error of a transport that fails while the client
/// waits. The client stays connected.
pub proof fn law_subscribe_breaks<'m, 'p, E>(
    client: ClientModel,
    topic: &'m str,
    qos: QoS,
    len: usize,
    encoded_at: u64,
    sent_at: u64,
    replies: Seq<Reply<'p, E>>,
    times: Seq<(u64, u64)>,
    error: E,
    failed_at: u64,
)
    requires
        client.state == ConnectionState::Connected,
        replies.len() < 16,
        times.len() == replies.len(),
        all_passed_over(replies),
    ensures
        subscribe_goes(
            client,
            machine::subscribe_begun::<E>(client, topic, qos),
            runs::sent_events(len, encoded_at, sent_at) + (runs::exchange(replies, times) + seq![
                (Event::Received(Err(error)), failed_at),
            ]),
            seq![Action::Send(len), Action::Receive] + (waiting_actions(replies) + seq![
                Action::Done(Err(MqttError::Transport(error))),
            ]),
            sent_at,
        ),
{
    let awaiting = awaiting_suback(client);
    law_wait_breaks(
        waiting(client, sent_at, awaiting),
        awaiting,
        replies,
        times,
        error,
        failed_at,
    );
    lemma_subscribe_then_wait(
        client,
        topic,
        qos,
        len,
        encoded_at,
        sent_at,
        runs::exchange(replies, times) + seq![(Event::Received(Err(error)), failed_at)],
        waiting_actions(replies) + seq![Action::Done(Err(MqttError::Transport(error)))],
    );
}

/// The events of a packet that does not get out: it cannot be encoded, or the
/// transport fails.
pub open spec fn unsent_events<'p, E>(
    encoded: Result<usize, MqttError<ErrorPlaceHolder>>,
    error: E,
    encoded_at: u64,
    failed_at: u64,
) -> Seq<(Event<'p, E>, u64)> {
    let first = seq![(Event::Encoded(encoded), encoded_at)];
    if encoded is Ok {
        first.push((Event::Sent(Err(error)), failed_at))
    } else {
        first
    }
}

/// The error of a packet that does not get out.
pub open spec fn unsent_error<E>(
    encoded: Result<usize, MqttError<ErrorPlaceHolder>>,
    error: E,
) -> MqttError<E> {
    match encoded {
        Ok(_) => MqttError::Transport(error),
        Err(e) => runs::reported(e)->0,
    }
}

/// A packet that does not get out ends its operation with the error, and changes
/// nothing else.
proof fn lemma_unsent<'p, E>(
    client: ClientModel,
    request: Request,
    encoded: Result<usize, MqttError<ErrorPlaceHolder>>,
    error: E,
    encoded_at: u64,
    failed_at: u64,
)
    requires
        client.pending == Pending::Encode(request),
        encoded matches Err(e) ==> !(e is Transport),
    ensures
        runs::ends(
            client,
            unsent_events::<'p, E>(encoded, error, encoded_at, failed_at),
            idle(client),
            Err(unsent_error(encoded, error)),
        ),
{
    let e0 = (Event::<'p, E>::Encoded(encoded), encoded_at);
    let e1 = (Event::<'p, E>::Sent(Err(error)), failed_at);
    runs::lemma_run_one(client, e0);
    runs::lemma_run_two(client, e0, e1);
    assert(seq![e0].push(e1) =~= seq![e0, e1]);
}

/// A message that does not get out is reported as an error. The client stays
/// connected, the time of its last transmission stands, and an identifier that the
/// message got stays spent.
pub proof fn law_publish_unsent<'m, 'p, E>(
    client: ClientModel,
    topic: &'m str,
    payload: &'m [u8],
    qos: QoS,
    retain: bool,
    encoded: Result<usize, MqttError<ErrorPlaceHolder>>,
    error: E,
    encoded_at: u64,
    failed_at: u64,
)
    requires
        client.state == ConnectionState::Connected,
        encoded matches Err(e) ==> !(e is Transport),
    ensures
        machine::publish_begun::<E>(client, topic, payload, qos, retain) matches Ok(
            (publish, sending),
        ) && runs::ends(
            sending,
            unsent_events::<'p, E>(encoded, error, encoded_at, failed_at),
            ClientModel {
                next_packet_id: match publish.packet_id {
                    Some(id) => id,
                    None => client.next_packet_id,
                },
                pending: Pending::Idle,
                ..client
            },
            Err(unsent_error(encoded, error)),
        ),
{
    let sending = machine::publish_begun::<E>(client, topic, payload, qos, retain)->Ok_0.1;
    lemma_unsent(sending, Request::Publish(qos), encoded, error, encoded_at, failed_at);
}

/// A subscription that does not get out is reported as an error. The client stays
/// connected, the time of its last transmission stands, and the identifier that the
/// subscription got stays spent.
pub proof fn law_subscribe_unsent<'m, 'p, E>(
    client: ClientModel,
    topic: &'m str,
    qos: QoS,
    encoded: Result<usize, MqttError<ErrorPlaceHolder>>,
    error: E,
    encoded_at: u64,
    failed_at: u64,
)
    requires
        client.state == ConnectionState::Connected,
        encoded matches Err(e) ==> !(e is Transport),
    ensures
        machine::subscribe_begun::<E>(client, topic, qos) matches Ok((subscribe, sending))
            && runs::ends(
            sending,
            unsent_events::<'p, E>(encoded, error, encoded_at, failed_at),
            ClientModel {
                next_packet_id: subscribe.packet_id,
                pending: Pending::Idle,
                ..client
            },
            Err(unsent_error(encoded, error)),
        ),
{
    let (subscribe, sending) = machine::subscribe_begun::<E>(client, topic, qos)->Ok_0;
    lemma_unsent(
        sending,
        Request::Subscribe(subscribe.packet_id),
        encoded,
        error,
        encoded_at,
        failed_at,
    );
}

/// A step at which a message that asks for an acknowledgement can be.
pub open spec fn publishing(pending: Pending) -> bool {
    match pending {
        Pending::Encode(Request::Publish(qos)) | Pending::Send(
            Request::Publish(qos),
        ) => qos != QoS::AtMostOnce,
        Pending::Receive(awaiting) | Pending::Decode(awaiting) => awaiting is PubAck,
        _ => false,
    }
}

/// A message that asks for an acknowledgement succeeds in no other way than by a
/// PUBACK, through whatever events and times it goes.
pub proof fn law_publish_needs_puback<'p, E>(
    client: ClientModel,
    events: Seq<(Event<'p, E>, u64)>,
    after: ClientModel,
    success: Option<MqttEvent<'p>>,
)
    requires
        publishing(client.pending),
        runs::ends(client, events, after, Ok(success)),
    ensures
        success is None,
        events.len() > 0,
        events.last().0 matches Event::Decoded(Ok(Some(packet))) && packet is PubAck,
    decreases events.len(),
{
    let rest = events.drop_first();
    let (next, action) = machine::transition(client, events[0].0, events[0].1)->0;
    let (last, actions) = runs::run(next, rest)->0;
    if rest.len() == 0 {
        assert(seq![action] + actions =~= seq![action]);
    } else {
        runs::lemma_run_asks(next, rest);
        assert((seq![action] + actions).last() == actions.last());
        law_publish_needs_puback(next, rest, after, success);
    }
}

/// A step at which a subscription under an identifier can be.
pub open spec fn subscribing(pending: Pending, packet_id: u16) -> bool {
    match pending {
        Pending::Encode(Request::Subscribe(id)) | Pending::Send(Request::Subscribe(id)) => id
            == packet_id,
        Pending::Receive(Awaiting::SubAck { packet_id: id, attempts }) | Pending::Decode(
            Awaiting::SubAck { packet_id: id, attempts },
        ) => id == packet_id,
        _ => false,
    }
}

/// A subscription succeeds in no other way than by a SUBACK that names its
/// identifier and has a first code, which is below 0x80, through whatever events
/// and times it goes.
pub proof fn law_subscribe_needs_suback<'p, E>(
    client: ClientModel,
    packet_id: u16,
    events: Seq<(Event<'p, E>, u64)>,
    after: ClientModel,
    success: Option<MqttEvent<'p>>,
)
    requires
        subscribing(client.pending, packet_id),
        runs::ends(client, events, after, Ok(success)),
    ensures
        success is None,
        events.len() > 0,
        events.last().0 matches Event::Decoded(Ok(Some(MqttPacket::SubAck(suback))))
            && suback.packet_id == packet_id && suback.reason_codes@.len() > 0
            && suback.reason_codes@[0] < 0x80,
    decreases events.len(),
{
    let rest = events.drop_first();
    let (next, action) = machine::transition(client, events[0].0, events[0].1)->0;
    let (last, actions) = runs::run(next, rest)->0;
    if rest.len() == 0 {
        assert(seq![action] + actions =~= seq![action]);
    } else {
        runs::lemma_run_asks(next, rest);
        assert((seq![action] + actions).last() == actions.last());
        law_subscribe_needs_suback(next, packet_id, rest, after, success);
    }
}

} // verus!

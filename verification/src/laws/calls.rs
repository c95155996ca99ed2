//! What holds of a client through any sequence of calls of its methods.

use crate::client;
use crate::laws::ids;
use crate::machine;
use crate::machine::{ClientModel, ConnectionState, Event};
use crate::options::{OptionsModel, WillModel};
use crate::packet::{Connect, QoS};
use vstd::prelude::*;

verus! {

/// A call of a method that changes a client.
pub enum Call<'m, 'p, E> {
    SetLastWill(WillModel),
    Connect,
    Publish { topic: &'m str, payload: &'m [u8], qos: QoS, retain: bool },
    Subscribe { topic: &'m str, qos: QoS },
    Poll { now: u64 },
    Step { event: Event<'p, E>, now: u64 },
}

/// A will that is accepted: its topic has at most 128 bytes in UTF-8, and its
/// payload at most 256.
pub open spec fn short_enough(will: WillModel) -> bool {
    vstd::utf8::encode_utf8(will.topic).len() <= 128 && will.payload.len() <= 256
}

/// A packet carries a will.
pub open spec fn carries(packet: Connect, will: WillModel) -> bool {
    &&& packet.will matches Some(sent)
    &&& sent.topic@ == will.topic
    &&& sent.payload@ == will.payload
    &&& sent.qos == will.qos
    &&& sent.retain == will.retain
}

/// What a call makes of a client.
pub open spec fn after_call<'m, 'p, E>(client: ClientModel, call: Call<'m, 'p, E>) -> ClientModel {
    match call {
        Call::SetLastWill(will) => if short_enough(will) {
            ClientModel { runtime_will: Some(will), ..client }
        } else {
            client
        },
        Call::Connect => machine::connect_begun(client),
        Call::Publish { topic, payload, qos, retain } => match machine::publish_begun::<E>(
            client,
            topic,
            payload,
            qos,
            retain,
        ) {
            Ok((_, next)) => next,
            Err(_) => client,
        },
        Call::Subscribe { topic, qos } => match machine::subscribe_begun::<E>(client, topic, qos) {
            Ok((_, next)) => next,
            Err(_) => client,
        },
        Call::Poll { now } => match machine::poll_begun::<E>(client, now) {
            Ok((_, next)) => next,
            Err(_) => client,
        },
        Call::Step { event, now } => match machine::transition(client, event, now) {
            Some((next, _)) => next,
            None => client,
        },
    }
}

/// What calls, one after another, make of a client.
pub open spec fn after_calls<'m, 'p, E>(
    client: ClientModel,
    calls: Seq<Call<'m, 'p, E>>,
) -> ClientModel
    decreases calls.len(),
{
    if calls.len() == 0 {
        client
    } else {
        after_call(after_calls(client, calls.drop_last()), calls.last())
    }
}

/// A call that sets no will, or one that is refused.
pub open spec fn keeps_will<E>(call: Call<E>) -> bool {
    call matches Call::SetLastWill(will) ==> !short_enough(will)
}

/// A will that was set on a client goes out with every later CONNECT, however
/// many connections are made and whatever else is called in between, as long as
/// no other will is accepted.
pub proof fn law_last_will_for_next_connections<'m, 'p, E>(
    client: ClientModel,
    will: WillModel,
    calls: Seq<Call<'m, 'p, E>>,
    packet: Connect,
)
    requires
        client.runtime_will == Some(will),
        forall|i: int| 0 <= i < calls.len() ==> keeps_will(#[trigger] calls[i]),
    ensures
        after_calls(client, calls).runtime_will == Some(will),
        client::presents(packet, after_calls(client, calls)) ==> carries(packet, will),
    decreases calls.len(),
{
    if calls.len() > 0 {
        let before = calls.drop_last();
        assert forall|i: int| 0 <= i < before.len() implies keeps_will(#[trigger] before[i]) by {
            assert(before[i] == calls[i]);
        }
        assert(keeps_will(calls[calls.len() - 1]));
        law_last_will_for_next_connections(client, will, before, packet);
    }
}

/// Until a will is set on a client itself, the one of its options goes out.
pub proof fn law_will_of_the_options<'m, 'p, E>(
    client: ClientModel,
    calls: Seq<Call<'m, 'p, E>>,
    packet: Connect,
)
    requires
        client.runtime_will is None,
        forall|i: int| 0 <= i < calls.len() ==> keeps_will(#[trigger] calls[i]),
    ensures
        after_calls(client, calls).runtime_will is None,
        client::presents(packet, after_calls(client, calls)) ==> match client.options.will {
            Some(will) => carries(packet, will),
            None => packet.will is None,
        },
    decreases calls.len(),
{
    law_options_stay(client, calls);
    if calls.len() > 0 {
        let before = calls.drop_last();
        assert forall|i: int| 0 <= i < before.len() implies keeps_will(#[trigger] before[i]) by {
            assert(before[i] == calls[i]);
        }
        assert(keeps_will(calls[calls.len() - 1]));
        law_will_of_the_options(client, before, packet);
    }
}

/// No call changes the options of a client.
pub proof fn law_options_stay<'m, 'p, E>(client: ClientModel, calls: Seq<Call<'m, 'p, E>>)
    ensures
        after_calls(client, calls).options == client.options,
    decreases calls.len(),
{
    if calls.len() > 0 {
        law_options_stay(client, calls.drop_last());
    }
}

/// Every call keeps a client in order.
pub proof fn law_calls_keep_order<'m, 'p, E>(client: ClientModel, call: Call<'m, 'p, E>)
    requires
        client.wf(),
    ensures
        after_call(client, call).wf(),
{
}

/// A client is in order at all times: when it is made, and after any calls.
pub proof fn law_always_in_order<'m, 'p, E>(
    options: OptionsModel,
    now: u64,
    calls: Seq<Call<'m, 'p, E>>,
)
    ensures
        after_calls(client::fresh(options, now), calls).wf(),
    decreases calls.len(),
{
    if calls.len() > 0 {
        law_always_in_order(options, now, calls.drop_last());
        law_calls_keep_order(
            after_calls(client::fresh(options, now), calls.drop_last()),
            calls.last(),
        );
    }
}

/// A call that begins something for which an identifier is given out.
pub open spec fn spends_id<E>(client: ClientModel, call: Call<E>) -> bool {
    client.state == ConnectionState::Connected && match call {
        Call::Publish { topic, payload, qos, retain } => qos != QoS::AtMostOnce,
        Call::Subscribe { topic, qos } => true,
        _ => false,
    }
}

/// How many identifiers calls have a client give out.
pub open spec fn ids_spent<'m, 'p, E>(client: ClientModel, calls: Seq<Call<'m, 'p, E>>) -> nat
    decreases calls.len(),
{
    if calls.len() == 0 {
        0
    } else {
        ids_spent(client, calls.drop_last()) + if spends_id(
            after_calls(client, calls.drop_last()),
            calls.last(),
        ) {
            1nat
        } else {
            0
        }
    }
}

/// The identifier that a request gets after calls: it comes as many places after
/// the one given out last before them as identifiers were given out since, and one.
pub proof fn law_request_ids<'m, 'p, E>(
    client: ClientModel,
    calls: Seq<Call<'m, 'p, E>>,
    topic: &'m str,
    payload: &'m [u8],
    qos: QoS,
    retain: bool,
)
    ensures
        machine::publish_begun::<E>(
            after_calls(client, calls),
            topic,
            payload,
            qos,
            retain,
        ) matches Ok((publish, _)) ==> publish.packet_id == (if qos == QoS::AtMostOnce {
            None
        } else {
            Some(ids::id_after_many(client.next_packet_id, ids_spent(client, calls) + 1))
        }),
        machine::subscribe_begun::<E>(after_calls(client, calls), topic, qos) matches Ok(
            (subscribe, _),
        ) ==> subscribe.packet_id == ids::id_after_many(
            client.next_packet_id,
            ids_spent(client, calls) + 1,
        ),
{
    law_ids_in_turn(client, calls);
}

/// Through any calls, identifiers are given out one after another: a call that
/// needs none, is refused or carries an operation on leaves none out and takes
/// none back.
pub proof fn law_ids_in_turn<'m, 'p, E>(client: ClientModel, calls: Seq<Call<'m, 'p, E>>)
    ensures
        after_calls(client, calls).next_packet_id == ids::id_after_many(
            client.next_packet_id,
            ids_spent(client, calls),
        ),
    decreases calls.len(),
{
    if calls.len() > 0 {
        law_ids_in_turn(client, calls.drop_last());
    }
}

} // verus!

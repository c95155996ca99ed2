//! Runs of a client through events, and the events that make up an exchange.

use crate::error::MqttError;
use crate::machine;
use crate::machine::{Action, ClientModel, Event, MqttEvent};
use crate::packet::MqttPacket;
use crate::transport::ErrorPlaceHolder;
use vstd::prelude::*;

verus! {

/// A run of a client through events, each at a time: what the client becomes,
/// and what it asked for on the way. There is none where some event does not
/// answer the step that was pending.
pub open spec fn run<'p, E>(client: ClientModel, events: Seq<(Event<'p, E>, u64)>) -> Option<
    (ClientModel, Seq<Action<'p, E>>),
>
    decreases events.len(),
{
    if events.len() == 0 {
        Some((client, Seq::empty()))
    } else {
        match machine::transition(client, events[0].0, events[0].1) {
            Some((next, action)) => match run(next, events.drop_first()) {
                Some((last, actions)) => Some((last, seq![action] + actions)),
                None => None,
            },
            None => None,
        }
    }
}

/// A run that ends an operation with this result and leaves the client like this.
pub open spec fn ends<'p, E>(
    client: ClientModel,
    events: Seq<(Event<'p, E>, u64)>,
    after: ClientModel,
    result: Result<Option<MqttEvent<'p>>, MqttError<E>>,
) -> bool {
    &&& run(client, events) matches Some((last, actions))
    &&& last == after
    &&& actions.len() > 0
    &&& actions.last() == Action::<'p, E>::Done(result)
}

/// How often a client asked to receive.
pub open spec fn receives<'p, E>(actions: Seq<Action<'p, E>>) -> nat
    decreases actions.len(),
{
    if actions.len() == 0 {
        0
    } else {
        receives(actions.drop_first()) + if actions[0] is Receive {
            1nat
        } else {
            0
        }
    }
}

/// How a client reports that a packet cannot be encoded: with the same error. An
/// encoder has no transport, so there is no report of an error of the transport.
pub open spec fn reported<E>(error: MqttError<ErrorPlaceHolder>) -> Option<MqttError<E>> {
    match error {
        MqttError::Protocol(violation) => Some(MqttError::Protocol(violation)),
        MqttError::NotConnected => Some(MqttError::NotConnected),
        MqttError::ConnectionRefused(code) => Some(MqttError::ConnectionRefused(code)),
        MqttError::Timeout => Some(MqttError::Timeout),
        MqttError::Transport(_) => None,
    }
}

/// A reply of the broker: the number of bytes received, and what they decode to.
pub struct Reply<'p, E> {
    pub len: usize,
    pub decoded: Result<Option<MqttPacket<'p>>, MqttError<E>>,
}

/// The events by which a client hears that a packet of so many bytes was encoded
/// and then sent, each at its own time.
pub open spec fn sent_events<'p, E>(len: usize, encoded_at: u64, sent_at: u64) -> Seq<
    (Event<'p, E>, u64),
> {
    seq![(Event::Encoded(Ok(len)), encoded_at), (Event::Sent(Ok(())), sent_at)]
}

/// The events by which a client hears of a reply: its receipt and its decoding,
/// each at its own time.
pub open spec fn reply_events<'p, E>(
    reply: Reply<'p, E>,
    received_at: u64,
    decoded_at: u64,
) -> Seq<(Event<'p, E>, u64)> {
    seq![(Event::Received(Ok(reply.len)), received_at), (Event::Decoded(reply.decoded), decoded_at)]
}

/// The events by which a client hears of replies. The times of a reply are those
/// of its receipt and of its decoding.
pub open spec fn exchange<'p, E>(replies: Seq<Reply<'p, E>>, times: Seq<(u64, u64)>) -> Seq<
    (Event<'p, E>, u64),
>
    decreases replies.len(),
{
    if replies.len() == 0 {
        Seq::empty()
    } else {
        reply_events(replies[0], times[0].0, times[0].1) + exchange(
            replies.drop_first(),
            times.drop_first(),
        )
    }
}

/// A run through one sequence of events and then another is a run through both.
pub(crate) proof fn lemma_run_concat<'p, E>(
    client: ClientModel,
    first: Seq<(Event<'p, E>, u64)>,
    second: Seq<(Event<'p, E>, u64)>,
)
    ensures
        match run(client, first) {
            Some((middle, before)) => match run(middle, second) {
                Some((last, after)) => run(client, first + second) == Some((last, before + after)),
                None => run(client, first + second) is None,
            },
            None => run(client, first + second) is None,
        },
    decreases first.len(),
{
    if first.len() == 0 {
        assert(first + second =~= second);
        match run(client, second) {
            Some((last, after)) => {
                assert(Seq::<Action<'p, E>>::empty() + after =~= after);
            },
            None => {},
        }
    } else {
        assert((first + second).drop_first() =~= first.drop_first() + second);
        match machine::transition(client, first[0].0, first[0].1) {
            Some((next, action)) => {
                lemma_run_concat(next, first.drop_first(), second);
                match run(next, first.drop_first()) {
                    Some((middle, before)) => match run(middle, second) {
                        Some((last, after)) => {
                            assert(seq![action] + (before + after) =~= (seq![action] + before)
                                + after);
                        },
                        None => {},
                    },
                    None => {},
                }
            },
            None => {},
        }
    }
}

/// A run of one step.
pub(crate) proof fn lemma_run_one<'p, E>(client: ClientModel, e0: (Event<'p, E>, u64))
    ensures
        run(client, seq![e0]) == match machine::transition(client, e0.0, e0.1) {
            Some((c1, a0)) => Some((c1, seq![a0])),
            None => None,
        },
{
    assert(seq![e0].drop_first() =~= Seq::<(Event<'p, E>, u64)>::empty());
    reveal_with_fuel(run, 2);
    match machine::transition(client, e0.0, e0.1) {
        Some((c1, a0)) => {
            assert(seq![a0] + Seq::<Action<'p, E>>::empty() =~= seq![a0]);
        },
        None => {},
    }
}

/// A run of two steps.
pub(crate) proof fn lemma_run_two<'p, E>(
    client: ClientModel,
    e0: (Event<'p, E>, u64),
    e1: (Event<'p, E>, u64),
)
    ensures
        run(client, seq![e0, e1]) == match machine::transition(client, e0.0, e0.1) {
            Some((c1, a0)) => match machine::transition(c1, e1.0, e1.1) {
                Some((c2, a1)) => Some((c2, seq![a0, a1])),
                None => None,
            },
            None => None,
        },
{
    assert(seq![e0, e1].drop_first() =~= seq![e1]);
    match machine::transition(client, e0.0, e0.1) {
        Some((c1, a0)) => {
            lemma_run_one(c1, e1);
            match machine::transition(c1, e1.0, e1.1) {
                Some((c2, a1)) => {
                    assert(seq![a0] + seq![a1] =~= seq![a0, a1]);
                },
                None => {},
            }
        },
        None => {},
    }
}

/// One reply more adds its events at the end.
pub(crate) proof fn lemma_exchange_push<'p, E>(
    replies: Seq<Reply<'p, E>>,
    reply: Reply<'p, E>,
    times: Seq<(u64, u64)>,
)
    requires
        times.len() == replies.len() + 1,
    ensures
        exchange(replies.push(reply), times) == exchange(replies, times.drop_last())
            + reply_events(reply, times.last().0, times.last().1),
    decreases replies.len(),
{
    let all = replies.push(reply);
    if replies.len() == 0 {
        assert(exchange(all.drop_first(), times.drop_first()) =~= Seq::empty());
    } else {
        assert(all.drop_first() =~= replies.drop_first().push(reply));
        assert(times.drop_first().drop_last() =~= times.drop_last().drop_first());
        lemma_exchange_push(replies.drop_first(), reply, times.drop_first());
    }
    assert(exchange(all, times) =~= exchange(replies, times.drop_last()) + reply_events(
        reply,
        times.last().0,
        times.last().1,
    ));
}

/// Requests to receive add up.
pub(crate) proof fn lemma_receives_concat<'p, E>(
    first: Seq<Action<'p, E>>,
    second: Seq<Action<'p, E>>,
)
    ensures
        receives(first + second) == receives(first) + receives(second),
    decreases first.len(),
{
    if first.len() == 0 {
        assert(first + second =~= second);
    } else {
        assert((first + second).drop_first() =~= first.drop_first() + second);
        lemma_receives_concat(first.drop_first(), second);
    }
}

/// Requests to receive among two actions.
pub(crate) proof fn lemma_receives_two<'p, E>(a0: Action<'p, E>, a1: Action<'p, E>)
    ensures
        receives(seq![a0, a1]) == (if a0 is Receive {
            1nat
        } else {
            0
        }) + (if a1 is Receive {
            1nat
        } else {
            0
        }),
{
    assert(seq![a0, a1].drop_first() =~= seq![a1]);
    assert(seq![a1].drop_first() =~= Seq::<Action<'p, E>>::empty());
    reveal_with_fuel(receives, 3);
}

/// A run asks for one thing at each event.
pub(crate) proof fn lemma_run_asks<'p, E>(client: ClientModel, events: Seq<(Event<'p, E>, u64)>)
    ensures
        run(client, events) matches Some((last, actions)) ==> actions.len() == events.len(),
    decreases events.len(),
{
    if events.len() > 0 {
        match machine::transition(client, events[0].0, events[0].1) {
            Some((next, action)) => {
                lemma_run_asks(next, events.drop_first());
            },
            None => {},
        }
    }
}

} // verus!

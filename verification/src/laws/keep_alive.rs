//! When a client tells the broker that it is alive.

use crate::laws::runs;
use crate::machine;
use crate::machine::{Action, ClientModel, ConnectionState, Event, Pending, Request};
use crate::packet::PingReq;
use vstd::prelude::*;

verus! {

/// A poll waits until exactly one keep-alive interval has gone by since the last
/// transmission, whenever it begins, and not at all once it has gone by.
pub proof fn law_poll_waits_for_keep_alive(client: ClientModel, now: u64)
    requires
        client.last_tx_time <= now,
    ensures
        ({
            let wait = machine::time_to_ping(client, now).ticks;
            let keep_alive = client.options.keep_alive.ticks;
            &&& wait <= keep_alive
            &&& wait == 0 <==> now - client.last_tx_time >= keep_alive
            &&& wait > 0 ==> now + wait == client.last_tx_time + keep_alive
        }),
{
}

/// When the timer of a poll fires, the client sends a PINGREQ, and once that is
/// out the keep-alive interval starts over.
pub proof fn law_ping_restarts_keep_alive<'p, E>(
    client: ClientModel,
    begin: u64,
    fired_at: u64,
    len: usize,
    encoded_at: u64,
    sent_at: u64,
)
    requires
        client.state == ConnectionState::Connected,
    ensures
        machine::poll_begun::<E>(client, begin) matches Ok((wait, begun)) && runs::run::<E>(
            begun,
            seq![(Event::TimerFired, fired_at)] + runs::sent_events(len, encoded_at, sent_at),
        ) == Some(
            (
                ClientModel { last_tx_time: sent_at, pending: Pending::Idle, ..client },
                seq![Action::<'p, E>::Encode(PingReq), Action::Send(len), Action::Done(Ok(None))],
            ),
        ),
        machine::time_to_ping(ClientModel { last_tx_time: sent_at, ..client }, sent_at)
            == client.options.keep_alive,
{
    let begun = machine::poll_begun::<E>(client, begin)->Ok_0.1;
    let fire = seq![(Event::<'p, E>::TimerFired, fired_at)];
    let pinging = ClientModel { pending: Pending::Encode(Request::Ping), ..client };
    let ping = runs::sent_events::<'p, E>(len, encoded_at, sent_at);
    runs::lemma_run_one(begun, fire[0]);
    runs::lemma_run_two(pinging, ping[0], ping[1]);
    runs::lemma_run_concat(begun, fire, ping);
    assert(seq![Action::<'p, E>::Encode(PingReq)] + seq![
        Action::<'p, E>::Send(len),
        Action::Done(Ok(None)),
    ] =~= seq![Action::<'p, E>::Encode(PingReq), Action::Send(len), Action::Done(Ok(None))]);
}

/// A poll: when it began, and the events that it went through, each at its time.
/// It may have been left before its end.
pub struct Poll<'p, E> {
    pub begun_at: u64,
    pub events: Seq<(Event<'p, E>, u64)>,
}

impl<'p, E> Poll<'p, E> {
    /// What the poll makes of a client. There is nothing where the client refuses
    /// it or where some event does not answer the step that was pending.
    pub open spec fn outcome(self, client: ClientModel) -> Option<ClientModel> {
        match machine::poll_begun::<E>(client, self.begun_at) {
            Ok((_, begun)) => match runs::run(begun, self.events) {
                Some((after, _)) => Some(after),
                None => None,
            },
            Err(_) => None,
        }
    }

    /// The time at which the poll got a PINGREQ out.
    pub open spec fn ping_time(self) -> Option<u64> {
        if self.events.len() == 3 && self.events[2].0 matches Event::Sent(Ok(_)) {
            Some(self.events[2].1)
        } else {
            None
        }
    }

    /// The poll keeps time: the clock does not run backwards, and the timer does
    /// not fire before the time that the client allowed has gone by.
    pub open spec fn keeps_time(self, client: ClientModel) -> bool {
        &&& client.last_tx_time <= self.begun_at
        &&& forall|i: int|
            0 <= i < self.events.len() ==> self.begun_at <= (#[trigger] self.events[i]).1
        &&& forall|i: int, j: int|
            0 <= i <= j < self.events.len() ==> (#[trigger] self.events[i]).1 <= (
            #[trigger] self.events[j]).1
        &&& self.events.len() > 0 && self.events[0].0 is TimerFired ==> self.begun_at
            + machine::time_to_ping(client, self.begun_at).ticks <= self.events[0].1
    }
}

/// A poll asks for a PINGREQ only when its timer fires, which is at least a
/// keep-alive interval after the last transmission. What it sends is that PINGREQ,
/// so it goes out no earlier. A poll that sends nothing leaves the time of the
/// last transmission as it was.
pub proof fn law_ping_not_early<'p, E>(client: ClientModel, poll: Poll<'p, E>)
    requires
        poll.keeps_time(client),
        poll.outcome(client) is Some,
    ensures
        poll.events.len() > 0 && poll.events[0].0 is TimerFired ==> poll.events[0].1
            - client.last_tx_time >= client.options.keep_alive.ticks,
        forall|i: int|
            0 <= i < poll.events.len() && (#[trigger] poll.events[i]).0 is TimerFired ==> i == 0,
        forall|i: int|
            0 <= i < poll.events.len() && (#[trigger] poll.events[i]).0 is Sent ==> i == 2
                && poll.events[0].0 is TimerFired && poll.events[i].1 - client.last_tx_time
                >= client.options.keep_alive.ticks,
        match poll.ping_time() {
            Some(sent_at) => {
                &&& sent_at - client.last_tx_time >= client.options.keep_alive.ticks
                &&& poll.outcome(client)->0.last_tx_time == sent_at
            },
            None => poll.outcome(client)->0.last_tx_time == client.last_tx_time,
        },
        poll.outcome(client)->0.state == client.state,
        poll.outcome(client)->0.options == client.options,
{
    let begun = machine::poll_begun::<E>(client, poll.begun_at)->Ok_0.1;
    let events = poll.events;
    reveal_with_fuel(runs::run, 5);
    if events.len() > 0 {
        let (c1, a1) = machine::transition(begun, events[0].0, events[0].1)->0;
        let tail = events.drop_first();
        if tail.len() > 0 {
            assert(tail[0] == events[1]);
            let (c2, a2) = machine::transition(c1, tail[0].0, tail[0].1)->0;
            let tail = tail.drop_first();
            if tail.len() > 0 {
                assert(tail[0] == events[2]);
                let (c3, a3) = machine::transition(c2, tail[0].0, tail[0].1)->0;
                let tail = tail.drop_first();
                assert(c3.pending is Idle);
                assert(tail.len() == 0);
            }
        }
    }
}

/// What polls, one after another, make of a client.
pub open spec fn after_polls<'p, E>(client: ClientModel, polls: Seq<Poll<'p, E>>) -> Option<
    ClientModel,
>
    decreases polls.len(),
{
    if polls.len() == 0 {
        Some(client)
    } else {
        match polls[0].outcome(client) {
            Some(next) => after_polls(next, polls.drop_first()),
            None => None,
        }
    }
}

/// Each poll keeps time.
pub open spec fn all_keep_time<'p, E>(client: ClientModel, polls: Seq<Poll<'p, E>>) -> bool
    decreases polls.len(),
{
    polls.len() > 0 ==> {
        &&& polls[0].keeps_time(client)
        &&& polls[0].outcome(client) matches Some(next) ==> all_keep_time(next, polls.drop_first())
    }
}

/// The times at which polls got a PINGREQ out.
pub open spec fn ping_times<'p, E>(polls: Seq<Poll<'p, E>>) -> Seq<u64>
    decreases polls.len(),
{
    if polls.len() == 0 {
        Seq::empty()
    } else {
        let later = ping_times(polls.drop_first());
        match polls[0].ping_time() {
            Some(sent_at) => seq![sent_at] + later,
            None => later,
        }
    }
}

/// Times lie at least so far apart, the first that far from `since`.
pub open spec fn spaced(since: u64, times: Seq<u64>, interval: u64) -> bool {
    forall|i: int|
        0 <= i < times.len() ==> (#[trigger] times[i]) - (if i == 0 {
            since
        } else {
            times[i - 1]
        }) >= interval
}

/// While a client does nothing but poll, the first PINGREQ goes out at least a
/// keep-alive interval after the last transmission before, and each later one at
/// least that long after the one before it, however many polls between send
/// nothing.
pub proof fn law_pings_are_spaced<'p, E>(client: ClientModel, polls: Seq<Poll<'p, E>>)
    requires
        all_keep_time(client, polls),
        after_polls(client, polls) is Some,
    ensures
        spaced(client.last_tx_time, ping_times(polls), client.options.keep_alive.ticks),
    decreases polls.len(),
{
    if polls.len() > 0 {
        let next = polls[0].outcome(client)->0;
        let later = ping_times(polls.drop_first());
        law_ping_not_early(client, polls[0]);
        law_pings_are_spaced(next, polls.drop_first());
        match polls[0].ping_time() {
            Some(sent_at) => {
                let times = seq![sent_at] + later;
                assert forall|i: int| 0 <= i < times.len() implies (#[trigger] times[i]) - (if i
                    == 0 {
                    client.last_tx_time
                } else {
                    times[i - 1]
                }) >= client.options.keep_alive.ticks by {
                    if i > 0 {
                        assert(times[i] == later[i - 1]);
                    }
                }
            },
            None => {},
        }
    }
}

} // verus!

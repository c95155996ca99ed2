//! How what was set on the options and on the client reaches the broker.

use crate::client::MqttClient;
use crate::laws::calls;
use crate::laws::calls::Call;
use crate::machine::{ClientModel, ConnectionState, Pending, Request};
use crate::options::{LastWill, MqttOptions, MqttVersion};
use crate::packet::Connect;
use crate::time;
use crate::time::Duration;
use vstd::prelude::*;

verus! {

/// A call that sets one of the options.
pub enum Setting<'a> {
    CleanSession(bool),
    Version(MqttVersion),
    KeepAlive(Duration),
    Credentials { username: &'a str, password: &'a str },
    LastWill(LastWill<'a>),
}

/// The call of a setting turned options into others.
pub open spec fn set<'a>(
    before: MqttOptions<'a>,
    setting: Setting<'a>,
    after: MqttOptions<'a>,
) -> bool {
    match setting {
        Setting::CleanSession(flag) => call_ensures(
            MqttOptions::with_clean_session,
            (before, flag),
            after,
        ),
        Setting::Version(version) => call_ensures(
            MqttOptions::with_version,
            (before, version),
            after,
        ),
        Setting::KeepAlive(interval) => call_ensures(
            MqttOptions::with_keep_alive,
            (before, interval),
            after,
        ),
        Setting::Credentials { username, password } => call_ensures(
            MqttOptions::with_credentials,
            (before, username, password),
            after,
        ),
        Setting::LastWill(will) => call_ensures(MqttOptions::with_last_will, (before, will), after),
    }
}

/// Options made for a client identifier by a chain of settings; `stages` are the
/// options from the first to those that came of it.
pub open spec fn chained<'a>(
    client_id: &'a str,
    settings: Seq<Setting<'a>>,
    stages: Seq<MqttOptions<'a>>,
) -> bool {
    &&& stages.len() == settings.len() + 1
    &&& call_ensures(MqttOptions::new, (client_id,), stages[0])
    &&& forall|i: int|
        0 <= i < settings.len() ==> set(#[trigger] stages[i], settings[i], stages[i + 1])
}

/// The last clean session flag set; on where none was.
pub open spec fn last_clean_session(settings: Seq<Setting>) -> bool
    decreases settings.len(),
{
    if settings.len() == 0 {
        true
    } else {
        match settings.last() {
            Setting::CleanSession(flag) => flag,
            _ => last_clean_session(settings.drop_last()),
        }
    }
}

/// The last protocol version set; version 3 where none was.
pub open spec fn last_version(settings: Seq<Setting>) -> MqttVersion
    decreases settings.len(),
{
    if settings.len() == 0 {
        MqttVersion::V3
    } else {
        match settings.last() {
            Setting::Version(version) => version,
            _ => last_version(settings.drop_last()),
        }
    }
}

/// The last keep-alive interval set, in ticks; a minute where none was.
pub open spec fn last_keep_alive(settings: Seq<Setting>) -> u64
    decreases settings.len(),
{
    if settings.len() == 0 {
        60_000_000
    } else {
        match settings.last() {
            Setting::KeepAlive(interval) => interval.ticks,
            _ => last_keep_alive(settings.drop_last()),
        }
    }
}

/// The last username and password set.
pub open spec fn last_credentials<'a>(settings: Seq<Setting<'a>>) -> Option<(&'a str, &'a str)>
    decreases settings.len(),
{
    if settings.len() == 0 {
        None
    } else {
        match settings.last() {
            Setting::Credentials { username, password } => Some((username, password)),
            _ => last_credentials(settings.drop_last()),
        }
    }
}

/// The last will set on the options.
pub open spec fn last_will<'a>(settings: Seq<Setting<'a>>) -> Option<LastWill<'a>>
    decreases settings.len(),
{
    if settings.len() == 0 {
        None
    } else {
        match settings.last() {
            Setting::LastWill(will) => Some(will),
            _ => last_will(settings.drop_last()),
        }
    }
}

/// The same will: the same topic, payload, quality of service and retain flag.
pub open spec fn same_will(one: LastWill, other: LastWill) -> bool {
    &&& one.topic@ == other.topic@
    &&& one.payload@ == other.payload@
    &&& one.qos == other.qos
    &&& one.retain == other.retain
}

/// Number of bytes that a text takes in UTF-8.
pub open spec fn utf8_len(text: &str) -> nat {
    vstd::utf8::encode_utf8(text@).len()
}

/// A username in a packet: the one set where it has at most 32 bytes, and none
/// where it has more or none was set.
pub open spec fn username_sent(credentials: Option<(&str, &str)>, sent: Option<&str>) -> bool {
    match credentials {
        Some((username, _)) if utf8_len(username) <= 32 => {
            sent matches Some(text) && text@ == username@
        },
        _ => sent is None,
    }
}

/// A password in a packet: the bytes of the one set where there are at most 64,
/// and none where there are more or none was set.
pub open spec fn password_sent(credentials: Option<(&str, &str)>, sent: Option<&[u8]>) -> bool {
    match credentials {
        Some((_, password)) if utf8_len(password) <= 64 => {
            sent matches Some(bytes) && bytes@ == vstd::utf8::encode_utf8(password@)
        },
        _ => sent is None,
    }
}

/// A will in a packet is the one set, if one was.
pub open spec fn will_sent(will: Option<LastWill>, sent: Option<LastWill>) -> bool {
    match will {
        Some(given) => sent matches Some(packed) && same_will(given, packed),
        None => sent is None,
    }
}

/// What a chain of settings comes to.
proof fn lemma_chain<'a>(
    client_id: &'a str,
    settings: Seq<Setting<'a>>,
    stages: Seq<MqttOptions<'a>>,
)
    requires
        chained(client_id, settings, stages),
    ensures
        ({
            let options = stages.last()@;
            &&& options.client_id == client_id@
            &&& options.clean_session == last_clean_session(settings)
            &&& options.version == last_version(settings)
            &&& options.keep_alive.ticks == last_keep_alive(settings)
            &&& match last_credentials(settings) {
                Some((username, password)) => {
                    &&& options.username == (if utf8_len(username) <= 32 {
                        Some(username@)
                    } else {
                        None
                    })
                    &&& options.password == (if utf8_len(password) <= 64 {
                        Some(password@)
                    } else {
                        None
                    })
                },
                None => options.username is None && options.password is None,
            }
            &&& match last_will(settings) {
                Some(will) => options.will matches Some(stored) && stored == will@,
                None => options.will is None,
            }
        }),
    decreases settings.len(),
{
    if settings.len() > 0 {
        let n = settings.len() as int - 1;
        let fewer = settings.drop_last();
        let before = stages.drop_last();
        assert(before[0] == stages[0]);
        assert forall|i: int| 0 <= i < fewer.len() implies set(
            #[trigger] before[i],
            fewer[i],
            before[i + 1],
        ) by {
            assert(set(stages[i], settings[i], stages[i + 1]));
        }
        lemma_chain(client_id, fewer, before);
        assert(set(stages[n], settings[n], stages[n + 1]));
        assert(before.last() == stages[n]);
    }
}

/// A CONNECT packet says what was set, whatever the order of the settings, whatever
/// protocol version is among them, and whatever the client did before: the client
/// identifier, the last clean session flag, the last keep-alive interval in whole
/// seconds, of which the packet holds the lower sixteen bits, and the last
/// credentials, as far as they fit.
pub proof fn law_connect_says_what_was_set<'a, 's, 'm, 'p, E>(
    client_id: &'a str,
    settings: Seq<Setting<'a>>,
    stages: Seq<MqttOptions<'a>>,
    made: MqttClient<'a>,
    calls: Seq<Call<'m, 'p, E>>,
    client: &'s mut MqttClient<'a>,
    packet: Connect<'s>,
)
    requires
        chained(client_id, settings, stages),
        call_ensures(MqttClient::new, (stages.last(),), made),
        client@ == calls::after_calls(made@, calls),
        call_ensures(MqttClient::connect, (client,), packet),
    ensures
        packet.client_id@ == client_id@,
        packet.clean_session == last_clean_session(settings),
        packet.keep_alive == (last_keep_alive(settings) / 1_000_000) % 65536,
        username_sent(last_credentials(settings), packet.username),
        password_sent(last_credentials(settings), packet.password),
        old(client)@.runtime_will is None ==> will_sent(last_will(settings), packet.will),
{
    lemma_chain(client_id, settings, stages);
    calls::law_options_stay(made@, calls);
}

/// Without settings, a client asks for a clean session and a keep-alive of sixty
/// seconds, and sends neither credentials nor a will.
pub proof fn law_connect_defaults<'a, 's>(
    client_id: &'a str,
    options: MqttOptions<'a>,
    client: &'s mut MqttClient<'a>,
    packet: Connect<'s>,
)
    requires
        call_ensures(MqttOptions::new, (client_id,), options),
        call_ensures(MqttClient::new, (options,), *client),
        call_ensures(MqttClient::connect, (client,), packet),
    ensures
        packet.client_id@ == client_id@,
        packet.clean_session,
        packet.keep_alive == 60,
        packet.username is None,
        packet.password is None,
        packet.will is None,
{
}

/// A keep-alive interval that is given in seconds goes out as that many seconds,
/// where the packet can hold the number.
pub proof fn law_keep_alive_in_seconds<'a, 's>(
    secs: u64,
    interval: Duration,
    options: MqttOptions<'a>,
    kept: MqttOptions<'a>,
    client: &'s mut MqttClient<'a>,
    packet: Connect<'s>,
)
    requires
        secs < 65536,
        call_ensures(Duration::from_secs, (secs,), interval),
        call_ensures(MqttOptions::with_keep_alive, (options, interval), kept),
        call_ensures(MqttClient::new, (kept,), *client),
        call_ensures(MqttClient::connect, (client,), packet),
    ensures
        packet.keep_alive == secs,
        interval.ticks == secs * 1_000_000,
{
}

/// The version in which a client has its packets encoded and decoded is the last
/// one set, whatever it did before.
pub proof fn law_version_set<'a, 'm, 'p, E>(
    client_id: &'a str,
    settings: Seq<Setting<'a>>,
    stages: Seq<MqttOptions<'a>>,
    made: MqttClient<'a>,
    calls: Seq<Call<'m, 'p, E>>,
    client: MqttClient<'a>,
    version: MqttVersion,
)
    requires
        chained(client_id, settings, stages),
        call_ensures(MqttClient::new, (stages.last(),), made),
        client@ == calls::after_calls(made@, calls),
        call_ensures(MqttClient::version, (&client,), version),
    ensures
        version == last_version(settings),
{
    lemma_chain(client_id, settings, stages);
    calls::law_options_stay(made@, calls);
}

/// A client that was just made is disconnected, has given no identifier out beyond
/// the first and has no will of its own, and its keep-alive clock starts at the
/// reading that the clock gave.
pub proof fn law_new<'a>(options: MqttOptions<'a>, made: MqttClient<'a>)
    requires
        call_ensures(MqttClient::new, (options,), made),
    ensures
        made@ == (ClientModel {
            options: options@,
            state: ConnectionState::Disconnected,
            last_tx_time: made@.last_tx_time,
            next_packet_id: 1,
            runtime_will: None,
            pending: Pending::Idle,
        }),
        time::clock_gave(made@.last_tx_time),
{
}

/// The same of a client that was made as of a given time.
pub proof fn law_new_at<'a>(options: MqttOptions<'a>, now: u64, made: MqttClient<'a>)
    requires
        call_ensures(MqttClient::new_at, (options, now), made),
    ensures
        made@ == (ClientModel {
            options: options@,
            state: ConnectionState::Disconnected,
            last_tx_time: now,
            next_packet_id: 1,
            runtime_will: None,
            pending: Pending::Idle,
        }),
{
}

/// A connection attempt begins in whatever state the client is, and changes nothing
/// of it but that state and the step that is pending.
pub proof fn law_connect_begins<'a, 's, E>(client: &'s mut MqttClient<'a>, packet: Connect<'s>)
    requires
        call_ensures(MqttClient::connect, (client,), packet),
    ensures
        final(client)@ == (ClientModel {
            state: ConnectionState::Connecting,
            pending: Pending::Encode(Request::Connect),
            ..old(client)@
        }),
        final(client)@ == calls::after_call::<E>(old(client)@, Call::Connect),
{
}

/// A client tells the connection state that it is in: it is disconnected when it was
/// just made, and connecting once a connection attempt has begun.
pub proof fn law_state_told<'a, 's>(
    options: MqttOptions<'a>,
    made: MqttClient<'a>,
    first: ConnectionState,
    client: &'s mut MqttClient<'a>,
    packet: Connect<'s>,
    second: ConnectionState,
    any: MqttClient<'a>,
    told: ConnectionState,
)
    requires
        call_ensures(MqttClient::new, (options,), made),
        call_ensures(MqttClient::state, (&made,), first),
        call_ensures(MqttClient::connect, (client,), packet),
        call_ensures(MqttClient::state, (&*final(client),), second),
        call_ensures(MqttClient::state, (&any,), told),
    ensures
        first == ConnectionState::Disconnected,
        second == ConnectionState::Connecting,
        told == any@.state,
{
}

/// A will is accepted exactly if its topic has at most 128 bytes in UTF-8 and its
/// payload at most 256, whatever its quality of service and retain flag. One that
/// is refused leaves the client as it was, and one that is accepted leaves
/// everything but the will.
pub proof fn law_will_accepted<'a, 'w, E>(
    client: &mut MqttClient<'a>,
    will: LastWill<'w>,
    accepted: bool,
)
    requires
        call_ensures(MqttClient::set_last_will, (client, will), accepted),
    ensures
        accepted <==> utf8_len(will.topic) <= 128 && will.payload@.len() <= 256,
        !accepted ==> final(client)@ == old(client)@,
        accepted ==> final(client)@ == (ClientModel {
            runtime_will: final(client)@.runtime_will,
            ..old(client)@
        }),
        final(client)@ == calls::after_call::<E>(old(client)@, Call::SetLastWill(will@)),
{
}

/// A will that is short enough goes out with every later CONNECT, with its topic,
/// payload, quality of service and retain flag, whatever will the options have and
/// whatever was called in between, as long as no other will was accepted.
pub proof fn law_set_will_goes_out<'a, 's, 'w, 'm, 'p, E>(
    client: &mut MqttClient<'a>,
    will: LastWill<'w>,
    accepted: bool,
    calls: Seq<Call<'m, 'p, E>>,
    later: &'s mut MqttClient<'a>,
    packet: Connect<'s>,
)
    requires
        utf8_len(will.topic) <= 128,
        will.payload@.len() <= 256,
        call_ensures(MqttClient::set_last_will, (client, will), accepted),
        forall|i: int| 0 <= i < calls.len() ==> calls::keeps_will(#[trigger] calls[i]),
        later@ == calls::after_calls(final(client)@, calls),
        call_ensures(MqttClient::connect, (later,), packet),
    ensures
        accepted,
        packet.will matches Some(sent) && same_will(will, sent),
{
    calls::law_last_will_for_next_connections(final(client)@, will@, calls, packet);
}

/// A will that is too long changes nothing of what goes out: the next CONNECT
/// carries what it would have carried.
pub proof fn law_refused_will_goes_nowhere<'a, 's, 'w>(
    client: &mut MqttClient<'a>,
    will: LastWill<'w>,
    accepted: bool,
    untouched: &'s mut MqttClient<'a>,
    expected: Connect<'s>,
    later: &'s mut MqttClient<'a>,
    packet: Connect<'s>,
)
    requires
        utf8_len(will.topic) > 128 || will.payload@.len() > 256,
        *untouched == *client,
        call_ensures(MqttClient::connect, (untouched,), expected),
        call_ensures(MqttClient::set_last_will, (client, will), accepted),
        *later == *final(client),
        call_ensures(MqttClient::connect, (later,), packet),
    ensures
        !accepted,
        will_sent(expected.will, packet.will),
{
}

} // verus!

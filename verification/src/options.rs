//! How a client presents itself to the broker.

use crate::packet::QoS;
use crate::storage;
use crate::storage::{
    password_str, store_password, store_username, username_str, MAX_PASSWORD_LEN, MAX_USERNAME_LEN,
};
use crate::time::{Duration, TICK_HZ};
use vstd::prelude::*;

verus! {

/// Represents the MQTT protocol version used by the client.
#[derive(Debug, Clone, Copy, PartialEq, Eq, Structural)]
pub enum MqttVersion {
    V3,
    V5,
}

/// Last Will and Testament configuration for MQTT CONNECT.
#[derive(Debug, Clone, Copy)]
pub struct LastWill<'a> {
    /// Topic the broker will publish to when the client disconnects unexpectedly.
    pub topic: &'a str,
    /// Payload the broker will publish on unexpected disconnect.
    pub payload: &'a [u8],
    /// QoS for the will publish.
    pub qos: QoS,
    /// Retain flag for the will publish.
    pub retain: bool,
}

/// A will, as contents alone.
pub struct WillModel {
    pub topic: Seq<char>,
    pub payload: Seq<u8>,
    pub qos: QoS,
    pub retain: bool,
}

impl<'a> View for LastWill<'a> {
    type V = WillModel;

    open spec fn view(&self) -> WillModel {
        WillModel {
            topic: self.topic@,
            payload: self.payload@,
            qos: self.qos,
            retain: self.retain,
        }
    }
}

/// The contents of a will that may be absent.
pub open spec fn will_contents(will: Option<LastWill>) -> Option<WillModel> {
    match will {
        Some(w) => Some(w@),
        None => None,
    }
}

/// The contents of a text that may be absent.
pub open spec fn text_contents(text: Option<&str>) -> Option<Seq<char>> {
    match text {
        Some(t) => Some(t@),
        None => None,
    }
}

/// Configuration options for the `MqttClient`.
pub struct MqttOptions<'a> {
    client_id: &'a str,
    version: MqttVersion,
    keep_alive: Duration,
    clean_session: bool,
    username: Option<heapless::String<MAX_USERNAME_LEN>>,
    password: Option<heapless::String<MAX_PASSWORD_LEN>>,
    will: Option<LastWill<'a>>,
}

/// Configuration options, as contents alone.
pub struct OptionsModel {
    pub client_id: Seq<char>,
    pub version: MqttVersion,
    pub keep_alive: Duration,
    pub clean_session: bool,
    pub username: Option<Seq<char>>,
    pub password: Option<Seq<char>>,
    pub will: Option<WillModel>,
}

impl<'a> View for MqttOptions<'a> {
    type V = OptionsModel;

    closed spec fn view(&self) -> OptionsModel {
        OptionsModel {
            client_id: self.client_id@,
            version: self.version,
            keep_alive: self.keep_alive,
            clean_session: self.clean_session,
            username: match self.username {
                Some(text) => Some(storage::username_text(text)),
                None => None,
            },
            password: match self.password {
                Some(text) => Some(storage::password_text(text)),
                None => None,
            },
            will: will_contents(self.will),
        }
    }
}

/// A text that is kept where its bytes do not exceed the limit, and dropped
/// where they do.
pub open spec fn kept_within(text: Seq<char>, limit: usize) -> Option<Seq<char>> {
    if storage::byte_len(text) <= limit {
        Some(text)
    } else {
        None
    }
}

impl<'a> MqttOptions<'a> {
    /// Version 3, a keep-alive of a minute, a clean session, no credentials and
    /// no will.
    pub fn new(client_id: &'a str) -> (options: Self)
        ensures
            options@ == (OptionsModel {
                client_id: client_id@,
                version: MqttVersion::V3,
                keep_alive: Duration { ticks: (60 * TICK_HZ) as u64 },
                clean_session: true,
                username: None,
                password: None,
                will: None,
            }),
    {
        MqttOptions {
            client_id,
            version: MqttVersion::V3,
            keep_alive: Duration::from_secs(60),
            clean_session: true,
            username: None,
            password: None,
            will: None,
        }
    }

    /// Sets the MQTT Clean Session flag.
    ///
    /// `false` keeps the broker-side session across reconnects, so that the
    /// broker delivers messages that came in meanwhile.
    pub fn with_clean_session(self, clean_session: bool) -> (options: Self)
        ensures
            options@ == (OptionsModel { clean_session, ..self@ }),
    {
        MqttOptions { clean_session, ..self }
    }

    /// Sets the protocol version.
    pub fn with_version(self, version: MqttVersion) -> (options: Self)
        ensures
            options@ == (OptionsModel { version, ..self@ }),
    {
        MqttOptions { version, ..self }
    }

    /// Sets the keep-alive interval.
    pub fn with_keep_alive(self, keep_alive: Duration) -> (options: Self)
        ensures
            options@ == (OptionsModel { keep_alive, ..self@ }),
    {
        MqttOptions { keep_alive, ..self }
    }

    /// Sets the username and password for MQTT broker authentication.
    ///
    /// Username is limited to 32 bytes, password to 64 bytes. Either one that is
    /// longer is left out, whatever the other is.
    pub fn with_credentials(self, username: &str, password: &str) -> (options: Self)
        ensures
            options@ == (OptionsModel {
                username: kept_within(username@, MAX_USERNAME_LEN),
                password: kept_within(password@, MAX_PASSWORD_LEN),
                ..self@
            }),
    {
        MqttOptions {
            username: store_username(username),
            password: store_password(password),
            ..self
        }
    }

    /// Sets the MQTT Last Will and Testament message.
    pub fn with_last_will(self, will: LastWill<'a>) -> (options: Self)
        ensures
            options@ == (OptionsModel { will: Some(will@), ..self@ }),
    {
        MqttOptions { will: Some(will), ..self }
    }

    pub(crate) fn client_id(&self) -> (client_id: &'a str)
        ensures
            client_id@ == self@.client_id,
    {
        self.client_id
    }

    pub(crate) fn version(&self) -> (version: MqttVersion)
        ensures
            version == self@.version,
    {
        self.version
    }

    pub(crate) fn keep_alive(&self) -> (keep_alive: Duration)
        ensures
            keep_alive == self@.keep_alive,
    {
        self.keep_alive
    }

    pub(crate) fn clean_session(&self) -> (clean_session: bool)
        ensures
            clean_session == self@.clean_session,
    {
        self.clean_session
    }

    pub(crate) fn username<'s>(&'s self) -> (username: Option<&'s str>)
        ensures
            text_contents(username) == self@.username,
    {
        match &self.username {
            Some(text) => Some(username_str(text)),
            None => None,
        }
    }

    pub(crate) fn password<'s>(&'s self) -> (password: Option<&'s str>)
        ensures
            text_contents(password) == self@.password,
    {
        match &self.password {
            Some(text) => Some(password_str(text)),
            None => None,
        }
    }

    pub(crate) fn will(&self) -> (will: Option<LastWill<'a>>)
        ensures
            will_contents(will) == self@.will,
    {
        self.will
    }
}

} // verus!

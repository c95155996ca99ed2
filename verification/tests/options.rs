use mqtt_client::{Duration, LastWill, MqttClient, MqttOptions, MqttVersion, QoS};

fn will<'a>(topic: &'a str, payload: &'a [u8]) -> LastWill<'a> {
    LastWill { topic, payload, qos: QoS::AtLeastOnce, retain: true }
}

#[test]
fn default_options_reach_the_connect_packet() {
    let mut client = MqttClient::new_at(MqttOptions::new("device-1"), 0);
    assert_eq!(client.version(), MqttVersion::V3);
    let packet = client.connect();
    assert_eq!(packet.client_id, "device-1");
    assert_eq!(packet.keep_alive, 60);
    assert!(packet.clean_session);
    assert_eq!(packet.username, None);
    assert_eq!(packet.password, None);
    assert!(packet.will.is_none());
}

#[test]
fn every_option_reaches_the_connect_packet() {
    let options = MqttOptions::new("device-1")
        .with_clean_session(false)
        .with_version(MqttVersion::V5)
        .with_keep_alive(Duration::from_secs(90))
        .with_credentials("user", "secret")
        .with_last_will(will("gone", b"bye"));
    let mut client = MqttClient::new_at(options, 0);
    assert_eq!(client.version(), MqttVersion::V5);
    let packet = client.connect();
    assert_eq!(packet.keep_alive, 90);
    assert!(!packet.clean_session);
    assert_eq!(packet.username, Some("user"));
    assert_eq!(packet.password, Some(&b"secret"[..]));
    let sent = packet.will.unwrap();
    assert_eq!(sent.topic, "gone");
    assert_eq!(sent.payload, b"bye");
    assert_eq!(sent.qos, QoS::AtLeastOnce);
    assert!(sent.retain);
}

#[test]
fn credentials_at_their_limits_are_kept() {
    let username = "u".repeat(32);
    let password = "p".repeat(64);
    let options = MqttOptions::new("c").with_credentials(&username, &password);
    let mut client = MqttClient::new_at(options, 0);
    let packet = client.connect();
    assert_eq!(packet.username, Some(username.as_str()));
    assert_eq!(packet.password, Some(password.as_bytes()));
}

#[test]
fn credentials_over_their_limits_are_left_out_one_by_one() {
    let options = MqttOptions::new("c").with_credentials(&"u".repeat(33), "secret");
    let mut client = MqttClient::new_at(options, 0);
    let packet = client.connect();
    assert_eq!(packet.username, None);
    assert_eq!(packet.password, Some(&b"secret"[..]));

    let options = MqttOptions::new("c").with_credentials("user", &"p".repeat(65));
    let mut client = MqttClient::new_at(options, 0);
    let packet = client.connect();
    assert_eq!(packet.username, Some("user"));
    assert_eq!(packet.password, None);
}

#[test]
fn limits_count_bytes_and_not_characters() {
    let fits = "\u{00e9}".repeat(16);
    let long = "\u{00e9}".repeat(17);
    let options = MqttOptions::new("c").with_credentials(&fits, &fits);
    let mut client = MqttClient::new_at(options, 0);
    let packet = client.connect();
    assert_eq!(packet.username, Some(fits.as_str()));
    assert_eq!(packet.password.map(|p| p.len()), Some(32));

    let options = MqttOptions::new("c").with_credentials(&long, &long);
    let mut client = MqttClient::new_at(options, 0);
    let packet = client.connect();
    assert_eq!(packet.username, None);
    assert_eq!(packet.password.map(|p| p.len()), Some(34));
}

#[test]
fn new_credentials_replace_old_ones() {
    let options = MqttOptions::new("c")
        .with_credentials("user", "secret")
        .with_credentials(&"u".repeat(40), "other");
    let mut client = MqttClient::new_at(options, 0);
    let packet = client.connect();
    assert_eq!(packet.username, None);
    assert_eq!(packet.password, Some(&b"other"[..]));
}

#[test]
fn keep_alive_goes_out_in_whole_seconds_of_sixteen_bits() {
    for (ticks, secs) in [
        (0, 0),
        (999_999, 0),
        (1_000_000, 1),
        (65_535_999_999, 65_535),
        (65_536_000_000, 0),
        (65_596_000_000, 60),
    ] {
        let options = MqttOptions::new("c").with_keep_alive(Duration::from_ticks(ticks));
        let mut client = MqttClient::new_at(options, 0);
        assert_eq!(client.connect().keep_alive, secs);
    }
}

#[test]
fn the_tick_rate_is_that_of_the_clock() {
    assert_eq!(mqtt_client::time::TICK_HZ, embassy_time::TICK_HZ);
}

#[test]
fn spans_convert_between_seconds_and_ticks() {
    assert_eq!(Duration::from_secs(60).as_ticks(), 60_000_000);
    assert_eq!(Duration::from_secs(60).as_secs(), 60);
    assert_eq!(Duration::from_ticks(2_999_999).as_secs(), 2);
    assert_eq!(Duration::from_ticks(7).as_ticks(), 7);
    assert_eq!(Duration::from_secs(2), Duration::from_ticks(2_000_000));
}

#[test]
fn set_last_will_overrides_the_options() {
    let options = MqttOptions::new("c").with_last_will(will("options", b"1"));
    let mut client = MqttClient::new_at(options, 0);
    assert!(client.set_last_will(LastWill {
        topic: "runtime",
        payload: b"2",
        qos: QoS::ExactlyOnce,
        retain: false,
    }));
    let sent = client.connect().will.unwrap();
    assert_eq!(sent.topic, "runtime");
    assert_eq!(sent.payload, b"2");
    assert_eq!(sent.qos, QoS::ExactlyOnce);
    assert!(!sent.retain);

    assert!(client.set_last_will(will("again", b"")));
    for _ in 0..2 {
        let sent = client.connect().will.unwrap();
        assert_eq!(sent.topic, "again");
        assert_eq!(sent.payload, b"");
    }
}

#[test]
fn a_will_fits_up_to_its_limits() {
    let topic = "t".repeat(128);
    let payload = vec![7u8; 256];
    let mut client = MqttClient::new_at(MqttOptions::new("c"), 0);
    assert!(client.set_last_will(will(&topic, &payload)));
    let sent = client.connect().will.unwrap();
    assert_eq!(sent.topic, topic);
    assert_eq!(sent.payload, &payload[..]);
}

#[test]
fn a_will_over_its_limits_is_refused_and_changes_nothing() {
    let mut client = MqttClient::new_at(MqttOptions::new("c"), 0);
    assert!(!client.set_last_will(will(&"t".repeat(129), b"x")));
    assert!(!client.set_last_will(will(&"\u{20ac}".repeat(43), b"x")));
    assert!(!client.set_last_will(will("t", &vec![0u8; 257])));
    assert!(client.connect().will.is_none());

    assert!(client.set_last_will(will("kept", b"kept")));
    assert!(!client.set_last_will(will(&"t".repeat(129), &vec![0u8; 257])));
    assert_eq!(client.connect().will.unwrap().topic, "kept");
}

use mqtt_client::{
    Action, ConnAck, ConnectionState, Duration, ErrorPlaceHolder, Event, LastWill, MqttClient, MqttError, MqttEvent,
    MqttOptions, MqttPacket, PingReq, ProtocolError, PubAck, Publish, QoS, SubAck,
};

type Fault = u8;

fn invalid() -> Option<Action<'static, Fault>> {
    Some(Action::Done(Err(MqttError::Protocol(ProtocolError::InvalidResponse))))
}

fn connack(reason_code: u8) -> MqttPacket<'static> {
    MqttPacket::ConnAck(ConnAck { session_present: false, reason_code })
}

fn suback(packet_id: u16, reason_codes: &[u8]) -> MqttPacket<'_> {
    MqttPacket::SubAck(SubAck { packet_id, reason_codes })
}

fn message() -> Publish<'static> {
    Publish {
        topic: "in",
        qos: QoS::AtMostOnce,
        retain: false,
        payload: b"hi",
        packet_id: None,
        properties: None,
    }
}

/// A client whose connection was accepted at the time `now`.
fn connected(now: u64) -> MqttClient<'static> {
    let options = MqttOptions::new("c").with_keep_alive(Duration::from_ticks(100));
    let mut client = MqttClient::new_at(options, 0);
    client.connect();
    assert_eq!(client.step_at::<Fault>(Event::Encoded(Ok(10)), 0), Some(Action::Send(10)));
    assert_eq!(client.step_at::<Fault>(Event::Sent(Ok(())), 0), Some(Action::Receive));
    assert_eq!(answer(&mut client, connack(0), now), Some(Action::Done(Ok(None))));
    assert_eq!(client.state(), ConnectionState::Connected);
    client
}

/// Hands a client one received packet.
fn answer<'p>(
    client: &mut MqttClient<'_>,
    packet: MqttPacket<'p>,
    now: u64,
) -> Option<Action<'p, Fault>> {
    assert_eq!(client.step_at::<Fault>(Event::Received(Ok(4)), now), Some(Action::Decode(4)));
    client.step_at(Event::Decoded(Ok(Some(packet))), now)
}

/// Tells a client that its packet was encoded and sent.
fn transmit(client: &mut MqttClient<'_>, now: u64) -> Option<Action<'static, Fault>> {
    assert_eq!(client.step_at::<Fault>(Event::Encoded(Ok(9)), now), Some(Action::Send(9)));
    client.step_at(Event::Sent(Ok(())), now)
}

fn publish_qos1(client: &mut MqttClient<'_>) -> u16 {
    let packet = client.publish::<Fault>("t", b"p", QoS::AtLeastOnce).unwrap();
    packet.packet_id.unwrap()
}

#[test]
fn an_accepted_connection_is_connected() {
    let client = connected(5);
    assert_eq!(client.state(), ConnectionState::Connected);
}

#[test]
fn a_refused_connection_is_reported_with_its_code() {
    for code in [1u8, 5, 0x80, 255] {
        let mut client = MqttClient::new_at(MqttOptions::new("c"), 0);
        client.connect();
        assert_eq!(client.state(), ConnectionState::Connecting);
        assert_eq!(transmit(&mut client, 0), Some(Action::Receive));
        assert_eq!(
            answer(&mut client, connack(code), 0),
            Some(Action::Done(Err(MqttError::ConnectionRefused(code))))
        );
        assert_eq!(client.state(), ConnectionState::Disconnected);
        assert_eq!(
            client.publish::<Fault>("t", b"p", QoS::AtMostOnce),
            Err(MqttError::NotConnected)
        );
    }
}

#[test]
fn another_packet_in_place_of_connack_is_invalid() {
    let puback = MqttPacket::PubAck(PubAck { packet_id: 1 });
    for packet in [MqttPacket::PingResp, MqttPacket::Publish(message()), MqttPacket::Other, puback] {
        let mut client = MqttClient::new_at(MqttOptions::new("c"), 0);
        client.connect();
        transmit(&mut client, 0);
        assert_eq!(answer(&mut client, packet, 0), invalid());
        assert_eq!(client.state(), ConnectionState::Disconnected);
    }
}

#[test]
fn a_connection_attempt_that_fails_before_an_answer_stays_connecting() {
    let mut client = MqttClient::new_at(MqttOptions::new("c"), 0);

    client.connect();
    assert_eq!(
        client.step_at::<Fault>(Event::Encoded(Err(MqttError::Timeout)), 0),
        Some(Action::Done(Err(MqttError::Timeout)))
    );
    assert_eq!(client.state(), ConnectionState::Connecting);

    client.connect();
    client.step_at::<Fault>(Event::Encoded(Ok(1)), 0);
    assert_eq!(
        client.step_at::<Fault>(Event::Sent(Err(3)), 0),
        Some(Action::Done(Err(MqttError::Transport(3))))
    );
    assert_eq!(client.state(), ConnectionState::Connecting);

    client.connect();
    transmit(&mut client, 0);
    assert_eq!(
        client.step_at::<Fault>(Event::Received(Err(4)), 0),
        Some(Action::Done(Err(MqttError::Transport(4))))
    );
    assert_eq!(client.state(), ConnectionState::Connecting);

    client.connect();
    transmit(&mut client, 0);
    assert_eq!(client.step_at::<Fault>(Event::Received(Ok(0)), 0), Some(Action::Decode(0)));
    assert_eq!(client.step_at::<Fault>(Event::Decoded(Ok(None)), 0), invalid());
    assert_eq!(client.state(), ConnectionState::Connecting);

    client.connect();
    transmit(&mut client, 0);
    client.step_at::<Fault>(Event::Received(Ok(2)), 0);
    let closed = MqttError::Protocol(ProtocolError::ConnectionClosed);
    assert_eq!(
        client.step_at::<Fault>(Event::Decoded(Err(closed)), 0),
        Some(Action::Done(Err(MqttError::Protocol(ProtocolError::ConnectionClosed))))
    );
    assert_eq!(client.state(), ConnectionState::Connecting);
}

#[test]
fn an_unconnected_client_refuses_every_other_operation() {
    let mut client = MqttClient::new_at(MqttOptions::new("c"), 0);
    for _ in 0..2 {
        assert_eq!(
            client.publish::<Fault>("t", b"p", QoS::AtLeastOnce),
            Err(MqttError::NotConnected)
        );
        assert_eq!(
            client.publish_with_retain::<Fault>("t", b"p", QoS::AtMostOnce, true),
            Err(MqttError::NotConnected)
        );
        assert_eq!(
            client.subscribe::<Fault>("t", QoS::AtMostOnce),
            Err(MqttError::NotConnected)
        );
        assert_eq!(client.poll_at::<Fault>(1), Err(MqttError::NotConnected));
        assert_eq!(client.poll::<Fault>(), Err(MqttError::NotConnected));
        client.connect();
    }
    // The refusals have spent no identifier.
    transmit(&mut client, 0);
    answer(&mut client, connack(0), 0);
    assert_eq!(publish_qos1(&mut client), 2);
}

#[test]
fn an_encoder_reports_every_error_but_one_of_a_transport() {
    let mut client = connected(0);
    let invalid_response = MqttError::Protocol(ProtocolError::InvalidResponse);
    publish_qos1(&mut client);
    assert_eq!(client.step_at(Event::Encoded(Err(invalid_response)), 1), invalid());
    publish_qos1(&mut client);
    assert_eq!(
        client.step_at::<Fault>(Event::Encoded(Err(MqttError::NotConnected)), 1),
        Some(Action::Done(Err(MqttError::NotConnected)))
    );
    publish_qos1(&mut client);
    assert_eq!(
        client.step_at::<Fault>(Event::Encoded(Err(MqttError::ConnectionRefused(3))), 1),
        Some(Action::Done(Err(MqttError::ConnectionRefused(3))))
    );
    publish_qos1(&mut client);
    let placeholder = MqttError::Transport(ErrorPlaceHolder);
    assert_eq!(client.step_at::<Fault>(Event::Encoded(Err(placeholder)), 1), None);
    assert_eq!(transmit(&mut client, 1), Some(Action::Receive));
}

#[test]
fn publish_at_most_once_is_done_when_sent() {
    let mut client = connected(0);
    let packet = client.publish::<Fault>("topic", b"payload", QoS::AtMostOnce).unwrap();
    assert_eq!(
        packet,
        Publish {
            topic: "topic",
            qos: QoS::AtMostOnce,
            retain: false,
            payload: b"payload",
            packet_id: None,
            properties: None,
        }
    );
    assert_eq!(transmit(&mut client, 1), Some(Action::Done(Ok(None))));
    assert_eq!(publish_qos1(&mut client), 2);
}

#[test]
fn publish_hands_the_retain_flag_on() {
    let mut client = connected(0);
    let packet = client
        .publish_with_retain::<Fault>("t", b"p", QoS::ExactlyOnce, true)
        .unwrap();
    assert!(packet.retain);
    assert_eq!(packet.qos, QoS::ExactlyOnce);
    assert_eq!(packet.packet_id, Some(2));
    assert!(!client.publish::<Fault>("t", b"p", QoS::AtMostOnce).unwrap().retain);
}

#[test]
fn publish_waits_for_puback_past_other_packets() {
    let mut client = connected(0);
    let id = publish_qos1(&mut client);
    assert_eq!(id, 2);
    assert_eq!(transmit(&mut client, 1), Some(Action::Receive));
    assert_eq!(answer(&mut client, MqttPacket::PingResp, 2), Some(Action::Receive));
    assert_eq!(answer(&mut client, MqttPacket::Publish(message()), 3), Some(Action::Receive));
    let puback = MqttPacket::PubAck(PubAck { packet_id: id });
    assert_eq!(answer(&mut client, puback, 4), Some(Action::Done(Ok(None))));
}

#[test]
fn publish_takes_any_puback() {
    let mut client = connected(0);
    publish_qos1(&mut client);
    transmit(&mut client, 1);
    let puback = MqttPacket::PubAck(PubAck { packet_id: 999 });
    assert_eq!(answer(&mut client, puback, 2), Some(Action::Done(Ok(None))));
}

#[test]
fn publish_rejects_any_other_reply() {
    for packet in [connack(0), suback(2, &[0]), MqttPacket::Other] {
        let mut client = connected(0);
        publish_qos1(&mut client);
        transmit(&mut client, 1);
        assert_eq!(answer(&mut client, packet, 2), invalid());
        assert_eq!(client.state(), ConnectionState::Connected);
    }
    let mut client = connected(0);
    publish_qos1(&mut client);
    transmit(&mut client, 1);
    assert_eq!(client.step_at::<Fault>(Event::Received(Ok(0)), 2), Some(Action::Decode(0)));
    assert_eq!(client.step_at::<Fault>(Event::Decoded(Ok(None)), 2), invalid());
}

#[test]
fn a_wait_gives_up_after_sixteen_packets_passed_over() {
    let mut client = connected(0);
    publish_qos1(&mut client);
    transmit(&mut client, 1);
    for _ in 0..15 {
        assert_eq!(answer(&mut client, MqttPacket::PingResp, 2), Some(Action::Receive));
    }
    assert_eq!(answer(&mut client, MqttPacket::PingResp, 2), invalid());
    assert_eq!(client.step_at::<Fault>(Event::Received(Ok(1)), 2), None);

    client.subscribe::<Fault>("t", QoS::AtMostOnce).unwrap();
    transmit(&mut client, 3);
    for _ in 0..15 {
        assert_eq!(answer(&mut client, MqttPacket::Publish(message()), 4), Some(Action::Receive));
    }
    assert_eq!(answer(&mut client, MqttPacket::Publish(message()), 4), invalid());
}

#[test]
fn a_wait_does_not_depend_on_the_time_of_its_replies() {
    let mut client = connected(0);
    let packet_id = publish_qos1(&mut client);
    assert_eq!(transmit(&mut client, 10), Some(Action::Receive));
    for (received_at, decoded_at) in [(11, 500), (20_000, 3), (u64::MAX, 0)] {
        assert_eq!(
            client.step_at::<Fault>(Event::Received(Ok(2)), received_at),
            Some(Action::Decode(2))
        );
        assert_eq!(
            client.step_at::<Fault>(Event::Decoded(Ok(Some(MqttPacket::PingResp))), decoded_at),
            Some(Action::Receive)
        );
    }
    let puback = MqttPacket::PubAck(PubAck { packet_id });
    assert_eq!(answer(&mut client, puback, 7), Some(Action::Done(Ok(None))));
    assert_eq!(client.poll_at::<Fault>(10), Ok(Duration::from_ticks(100)));
}

#[test]
fn a_transport_that_fails_during_a_wait_leaves_the_client_connected() {
    let mut client = connected(0);
    publish_qos1(&mut client);
    transmit(&mut client, 1);
    assert_eq!(answer(&mut client, MqttPacket::PingResp, 2), Some(Action::Receive));
    assert_eq!(
        client.step_at::<Fault>(Event::Received(Err(6)), 3),
        Some(Action::Done(Err(MqttError::Transport(6))))
    );
    assert_eq!(client.state(), ConnectionState::Connected);

    client.subscribe::<Fault>("t", QoS::AtMostOnce).unwrap();
    transmit(&mut client, 4);
    assert_eq!(
        client.step_at::<Fault>(Event::Received(Err(7)), 5),
        Some(Action::Done(Err(MqttError::Transport(7))))
    );
    assert_eq!(client.state(), ConnectionState::Connected);
}

#[test]
fn the_keep_alive_of_a_connection_starts_when_it_is_accepted() {
    let options = MqttOptions::new("c").with_keep_alive(Duration::from_ticks(100));
    let mut client = MqttClient::new_at(options, 0);
    client.connect();
    transmit(&mut client, 10);
    client.step_at::<Fault>(Event::Received(Ok(4)), 20);
    client.step_at::<Fault>(Event::Decoded(Ok(Some(connack(0)))), 30);
    assert_eq!(client.poll_at::<Fault>(30), Ok(Duration::from_ticks(100)));
}

#[test]
fn a_will_set_at_run_time_goes_with_every_later_connection() {
    let mut client = connected(0);
    assert!(client.set_last_will(LastWill {
        topic: "gone",
        payload: b"bye",
        qos: QoS::AtMostOnce,
        retain: false,
    }));
    for reason_code in [0u8, 5, 0] {
        assert_eq!(client.connect().will.unwrap().topic, "gone");
        transmit(&mut client, 1);
        answer(&mut client, connack(reason_code), 2);
        if reason_code == 0 {
            client.poll_at::<Fault>(3).unwrap();
            answer(&mut client, MqttPacket::PingResp, 4);
            publish_qos1(&mut client);
            transmit(&mut client, 5);
            answer(&mut client, MqttPacket::PubAck(PubAck { packet_id: 1 }), 6);
        }
        let long = "t".repeat(129);
        assert!(!client.set_last_will(LastWill {
            topic: &long,
            payload: b"",
            qos: QoS::AtMostOnce,
            retain: false,
        }));
    }
    assert_eq!(client.connect().will.unwrap().payload, b"bye");
}

/// Carries an operation on while every reply is the same packet, and counts what
/// the client sends and receives.
fn traffic(client: &mut MqttClient<'_>, reply: MqttPacket<'_>) -> (usize, usize) {
    let (mut sends, mut receives) = (0, 0);
    let mut event = Event::<Fault>::Encoded(Ok(9));
    loop {
        event = match client.step_at(event, 1).unwrap() {
            Action::Send(_) => {
                assert_eq!(receives, 0);
                sends += 1;
                Event::Sent(Ok(()))
            }
            Action::Receive => {
                assert_eq!(sends, 1);
                receives += 1;
                Event::Received(Ok(4))
            }
            Action::Decode(_) => Event::Decoded(Ok(Some(reply))),
            Action::Encode(_) => panic!("no operation here sends a ping"),
            Action::Done(_) => return (sends, receives),
        };
    }
}

#[test]
fn an_operation_sends_once_and_receives_within_its_attempts() {
    let mut client = connected(0);
    client.publish::<Fault>("t", b"p", QoS::AtMostOnce).unwrap();
    assert_eq!(traffic(&mut client, MqttPacket::PingResp), (1, 0));
    publish_qos1(&mut client);
    assert_eq!(traffic(&mut client, MqttPacket::PingResp), (1, 16));
    publish_qos1(&mut client);
    assert_eq!(traffic(&mut client, MqttPacket::Other), (1, 1));
    client.subscribe::<Fault>("t", QoS::AtMostOnce).unwrap();
    assert_eq!(traffic(&mut client, MqttPacket::Publish(message())), (1, 16));
    client.connect();
    assert_eq!(traffic(&mut client, MqttPacket::PingResp), (1, 1));
}

#[test]
fn an_acknowledgement_may_come_with_the_last_attempt() {
    let mut client = connected(0);
    let packet_id = publish_qos1(&mut client);
    transmit(&mut client, 1);
    for _ in 0..15 {
        assert_eq!(answer(&mut client, MqttPacket::PingResp, 2), Some(Action::Receive));
    }
    let puback = MqttPacket::PubAck(PubAck { packet_id });
    assert_eq!(answer(&mut client, puback, 2), Some(Action::Done(Ok(None))));

    let id = client.subscribe::<Fault>("t", QoS::AtMostOnce).unwrap().packet_id;
    transmit(&mut client, 3);
    for _ in 0..15 {
        assert_eq!(answer(&mut client, MqttPacket::Publish(message()), 4), Some(Action::Receive));
    }
    assert_eq!(answer(&mut client, suback(id, &[1]), 4), Some(Action::Done(Ok(None))));
}

#[test]
fn subscribe_is_granted_by_its_own_suback() {
    for code in [0u8, 1, 2, 0x7f] {
        let mut client = connected(0);
        let packet = client.subscribe::<Fault>("topic", QoS::AtLeastOnce).unwrap();
        assert_eq!(packet.packet_id, 2);
        assert_eq!(packet.topic, "topic");
        assert_eq!(packet.qos, QoS::AtLeastOnce);
        assert_eq!(transmit(&mut client, 1), Some(Action::Receive));
        assert_eq!(answer(&mut client, suback(2, &[code, 0x80]), 2), Some(Action::Done(Ok(None))));
    }
}

#[test]
fn subscribe_is_refused_by_any_other_suback() {
    let codes: [(u16, &[u8]); 5] =
        [(3, &[0]), (1, &[0]), (2, &[0x80]), (2, &[0xff, 0]), (2, &[])];
    for (id, reason_codes) in codes {
        let mut client = connected(0);
        client.subscribe::<Fault>("t", QoS::AtMostOnce).unwrap();
        transmit(&mut client, 1);
        assert_eq!(answer(&mut client, suback(id, reason_codes), 2), invalid());
        assert_eq!(client.state(), ConnectionState::Connected);
    }
    let mut client = connected(0);
    client.subscribe::<Fault>("t", QoS::AtMostOnce).unwrap();
    transmit(&mut client, 1);
    let puback = MqttPacket::PubAck(PubAck { packet_id: 2 });
    assert_eq!(answer(&mut client, puback, 2), invalid());
}

#[test]
fn identifiers_count_up_and_wrap_past_zero() {
    let mut client = connected(0);
    for expected in 2..=u16::MAX {
        assert_eq!(publish_qos1(&mut client), expected);
    }
    assert_eq!(publish_qos1(&mut client), 1);
    assert_eq!(client.subscribe::<Fault>("t", QoS::AtMostOnce).unwrap().packet_id, 2);
}

#[test]
fn a_failed_publish_keeps_its_identifier_spent() {
    let mut client = connected(0);
    assert_eq!(publish_qos1(&mut client), 2);
    assert_eq!(
        client.step_at::<Fault>(Event::Encoded(Err(MqttError::Timeout)), 1),
        Some(Action::Done(Err(MqttError::Timeout)))
    );
    assert_eq!(client.state(), ConnectionState::Connected);
    assert_eq!(publish_qos1(&mut client), 3);
}

#[test]
fn poll_waits_for_what_is_left_of_the_keep_alive() {
    let mut client = connected(1000);
    for (now, left) in [(1000, 100), (1001, 99), (1099, 1), (1100, 0), (5000, 0)] {
        assert_eq!(client.poll_at::<Fault>(now), Ok(Duration::from_ticks(left)));
    }
}

#[test]
fn poll_reports_messages_and_nothing_else() {
    let mut client = connected(0);
    client.poll_at::<Fault>(1).unwrap();
    assert_eq!(
        answer(&mut client, MqttPacket::Publish(message()), 2),
        Some(Action::Done(Ok(Some(MqttEvent::Publish(message())))))
    );
    let puback = MqttPacket::PubAck(PubAck { packet_id: 1 });
    for packet in [MqttPacket::PingResp, connack(5), puback, suback(1, &[0]), MqttPacket::Other] {
        client.poll_at::<Fault>(3).unwrap();
        assert_eq!(answer(&mut client, packet, 4), Some(Action::Done(Ok(None))));
        assert_eq!(client.state(), ConnectionState::Connected);
    }
    client.poll_at::<Fault>(5).unwrap();
    assert_eq!(client.step_at::<Fault>(Event::Received(Ok(7)), 6), Some(Action::Decode(7)));
    assert_eq!(
        client.step_at::<Fault>(Event::Decoded(Ok(None)), 6),
        Some(Action::Done(Ok(None)))
    );
}

#[test]
fn poll_hands_the_properties_of_a_message_on() {
    let mut client = connected(0);
    client.poll_at::<Fault>(1).unwrap();
    let incoming = Publish { properties: Some(&[0x01, 0x01]), ..message() };
    assert_eq!(
        answer(&mut client, MqttPacket::Publish(incoming), 2),
        Some(Action::Done(Ok(Some(MqttEvent::Publish(incoming)))))
    );
}

#[test]
fn pings_keep_their_distance_through_polls_that_send_nothing() {
    let mut client = connected(0);
    // Polls that end with a message, with nothing, and that are left before their end.
    assert_eq!(client.poll_at::<Fault>(30), Ok(Duration::from_ticks(70)));
    answer(&mut client, MqttPacket::Publish(message()), 40);
    assert_eq!(client.poll_at::<Fault>(50), Ok(Duration::from_ticks(50)));
    client.step_at::<Fault>(Event::Received(Ok(0)), 60);
    assert_eq!(client.poll_at::<Fault>(70), Ok(Duration::from_ticks(30)));
    assert_eq!(client.poll_at::<Fault>(80), Ok(Duration::from_ticks(20)));
    assert_eq!(client.step_at::<Fault>(Event::TimerFired, 100), Some(Action::Encode(PingReq)));
    assert_eq!(transmit(&mut client, 101), Some(Action::Done(Ok(None))));

    assert_eq!(client.poll_at::<Fault>(110), Ok(Duration::from_ticks(91)));
    assert_eq!(answer(&mut client, MqttPacket::PingResp, 120), Some(Action::Done(Ok(None))));
    assert_eq!(client.poll_at::<Fault>(130), Ok(Duration::from_ticks(71)));
    assert_eq!(client.step_at::<Fault>(Event::TimerFired, 201), Some(Action::Encode(PingReq)));
}

#[test]
fn a_ping_that_fails_leaves_the_next_one_due() {
    let mut client = connected(0);
    assert_eq!(client.poll_at::<Fault>(100), Ok(Duration::from_ticks(0)));
    client.step_at::<Fault>(Event::TimerFired, 100);
    client.step_at::<Fault>(Event::Encoded(Ok(2)), 100);
    assert_eq!(
        client.step_at::<Fault>(Event::Sent(Err(8)), 101),
        Some(Action::Done(Err(MqttError::Transport(8))))
    );
    assert_eq!(client.poll_at::<Fault>(102), Ok(Duration::from_ticks(0)));
}

#[test]
fn poll_does_not_decode_an_empty_read() {
    let mut client = connected(0);
    client.poll_at::<Fault>(1).unwrap();
    assert_eq!(
        client.step_at::<Fault>(Event::Received(Ok(0)), 2),
        Some(Action::Done(Ok(None)))
    );
}

#[test]
fn poll_hands_errors_on() {
    let mut client = connected(0);
    client.poll_at::<Fault>(1).unwrap();
    assert_eq!(
        client.step_at::<Fault>(Event::Received(Err(9)), 2),
        Some(Action::Done(Err(MqttError::Transport(9))))
    );
    client.poll_at::<Fault>(3).unwrap();
    client.step_at::<Fault>(Event::Received(Ok(1)), 4);
    assert_eq!(
        client.step_at::<Fault>(Event::Decoded(Err(MqttError::Timeout)), 4),
        Some(Action::Done(Err(MqttError::Timeout)))
    );
    assert_eq!(client.state(), ConnectionState::Connected);
}

#[test]
fn the_timer_sends_a_ping_that_restarts_the_keep_alive() {
    let mut client = connected(0);
    assert_eq!(client.poll_at::<Fault>(90), Ok(Duration::from_ticks(10)));
    assert_eq!(
        client.step_at::<Fault>(Event::TimerFired, 100),
        Some(Action::Encode(PingReq))
    );
    assert_eq!(transmit(&mut client, 103), Some(Action::Done(Ok(None))));
    assert_eq!(client.poll_at::<Fault>(103), Ok(Duration::from_ticks(100)));
    assert_eq!(client.poll_at::<Fault>(150), Ok(Duration::from_ticks(53)));
}

#[test]
fn transmissions_restart_the_keep_alive_and_replies_do_not() {
    let mut client = connected(0);
    publish_qos1(&mut client);
    transmit(&mut client, 40);
    answer(&mut client, MqttPacket::PubAck(PubAck { packet_id: 2 }), 60);
    assert_eq!(client.poll_at::<Fault>(60), Ok(Duration::from_ticks(80)));

    client.subscribe::<Fault>("t", QoS::AtMostOnce).unwrap();
    transmit(&mut client, 70);
    answer(&mut client, suback(3, &[0]), 90);
    assert_eq!(client.poll_at::<Fault>(90), Ok(Duration::from_ticks(80)));

    client.publish::<Fault>("t", b"p", QoS::AtMostOnce).unwrap();
    transmit(&mut client, 95);
    assert_eq!(client.poll_at::<Fault>(95), Ok(Duration::from_ticks(100)));
}

#[test]
fn a_failed_transmission_does_not_restart_the_keep_alive() {
    let mut client = connected(0);
    client.publish::<Fault>("t", b"p", QoS::AtMostOnce).unwrap();
    client.step_at::<Fault>(Event::Encoded(Ok(1)), 40);
    assert_eq!(
        client.step_at::<Fault>(Event::Sent(Err(1)), 40),
        Some(Action::Done(Err(MqttError::Transport(1))))
    );
    assert_eq!(client.poll_at::<Fault>(40), Ok(Duration::from_ticks(60)));
}

#[test]
fn an_event_that_answers_nothing_changes_nothing() {
    let mut client = connected(0);
    assert_eq!(client.step_at::<Fault>(Event::TimerFired, 1), None);
    publish_qos1(&mut client);
    assert_eq!(client.step_at::<Fault>(Event::Sent(Ok(())), 1), None);
    assert_eq!(client.step_at::<Fault>(Event::Received(Ok(1)), 1), None);
    assert_eq!(transmit(&mut client, 1), Some(Action::Receive));
    assert_eq!(client.step_at::<Fault>(Event::TimerFired, 1), None);
    assert_eq!(client.step_at::<Fault>(Event::Decoded(Ok(None)), 1), None);
    let puback = MqttPacket::PubAck(PubAck { packet_id: 2 });
    assert_eq!(answer(&mut client, puback, 2), Some(Action::Done(Ok(None))));
}

#[test]
fn a_new_operation_takes_the_place_of_an_abandoned_one() {
    let mut client = connected(0);
    publish_qos1(&mut client);
    transmit(&mut client, 1);
    client.subscribe::<Fault>("t", QoS::AtMostOnce).unwrap();
    assert_eq!(client.step_at::<Fault>(Event::Received(Ok(1)), 2), None);
    assert_eq!(transmit(&mut client, 2), Some(Action::Receive));
    client.connect();
    assert_eq!(client.state(), ConnectionState::Connecting);
}

#[test]
fn the_clock_drives_a_client_on_its_own() {
    let options = MqttOptions::new("c").with_keep_alive(Duration::from_secs(3600));
    let mut client = MqttClient::new(options);
    client.connect();
    client.step::<Fault>(Event::Encoded(Ok(10)));
    client.step::<Fault>(Event::Sent(Ok(())));
    assert_eq!(client.step::<Fault>(Event::Received(Ok(4))), Some(Action::Decode(4)));
    assert_eq!(
        client.step::<Fault>(Event::Decoded(Ok(Some(connack(0))))),
        Some(Action::Done(Ok(None)))
    );
    let first = client.poll::<Fault>().unwrap().as_ticks();
    assert!(first <= 3_600_000_000 && first > 3_500_000_000);
    embassy_time::block_for(embassy_time::Duration::from_millis(20));
    let second = client.poll::<Fault>().unwrap().as_ticks();
    assert!(second + 20_000 <= first);

    client.step::<Fault>(Event::TimerFired);
    client.step::<Fault>(Event::Encoded(Ok(2)));
    assert_eq!(client.step::<Fault>(Event::Sent(Ok(()))), Some(Action::Done(Ok(None))));
    assert!(client.poll::<Fault>().unwrap().as_ticks() > second);
}

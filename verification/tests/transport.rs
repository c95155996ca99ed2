use mqtt_client::{
    read_outcome, write_outcome, ErrorPlaceHolder, MqttError, ProtocolError, ReadRace,
    TransportError,
};

fn shown<T: TransportError>(error: T) -> String {
    format!("{:?}", error)
}

#[test]
fn a_read_of_bytes_is_handed_on() {
    assert_eq!(read_outcome::<u8>(ReadRace::Read(Ok(1))), Ok(1));
    assert_eq!(read_outcome::<u8>(ReadRace::Read(Ok(usize::MAX))), Ok(usize::MAX));
}

#[test]
fn an_empty_read_means_that_the_peer_closed() {
    assert_eq!(
        read_outcome::<u8>(ReadRace::Read(Ok(0))),
        Err(MqttError::Protocol(ProtocolError::ConnectionClosed))
    );
}

#[test]
fn a_failed_read_is_an_error_of_the_transport() {
    assert_eq!(read_outcome::<u8>(ReadRace::Read(Err(7))), Err(MqttError::Transport(7)));
}

#[test]
fn a_read_that_takes_too_long_times_out() {
    assert_eq!(read_outcome::<u8>(ReadRace::TimedOut), Err(MqttError::Timeout));
}

#[test]
fn a_write_hands_its_error_on() {
    assert_eq!(write_outcome::<u8>(Ok(())), Ok(()));
    assert_eq!(write_outcome::<u8>(Err(7)), Err(MqttError::Transport(7)));
}

#[test]
fn transport_errors_can_be_shown() {
    assert_eq!(shown(ErrorPlaceHolder), "ErrorPlaceHolder");
    assert_eq!(shown(embassy_net::tcp::Error::ConnectionReset), "ConnectionReset");
    assert_eq!(shown(MqttError::<u8>::Timeout), "Timeout");
}

#[test]
fn an_error_is_cast_to_any_transport_but_its_own() {
    type Placeholder = MqttError<ErrorPlaceHolder>;
    let closed = Placeholder::Protocol(ProtocolError::ConnectionClosed);
    assert_eq!(
        closed.cast_transport_error::<u8>(),
        Ok(MqttError::Protocol(ProtocolError::ConnectionClosed))
    );
    assert_eq!(
        Placeholder::NotConnected.cast_transport_error::<u8>(),
        Ok(MqttError::NotConnected)
    );
    assert_eq!(
        Placeholder::ConnectionRefused(4).cast_transport_error::<u8>(),
        Ok(MqttError::ConnectionRefused(4))
    );
    assert_eq!(Placeholder::Timeout.cast_transport_error::<u8>(), Ok(MqttError::Timeout));
    assert_eq!(
        Placeholder::Transport(ErrorPlaceHolder).cast_transport_error::<u8>(),
        Err(ErrorPlaceHolder)
    );
}

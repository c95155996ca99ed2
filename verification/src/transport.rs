//! How the outcomes of a byte transport become errors of the client.

use crate::error::{MqttError, ProtocolError};
use vstd::prelude::*;

verus! {

/// A placeholder error type used in contexts where the actual transport error is
/// not known, such as when a packet is encoded.
#[derive(Debug, Copy, Clone, PartialEq, Eq)]
pub struct ErrorPlaceHolder;

/// A marker trait for transport-related errors.
pub trait TransportError: core::fmt::Debug {

}

// Allow the placeholder to be treated as a transport error for generic contexts.
impl TransportError for ErrorPlaceHolder {

}

// A transport may itself report client errors.
impl<T: core::fmt::Debug> TransportError for MqttError<T> {

}

/// `embassy_net::tcp::Error`, the error of a TCP socket.
#[verifier::external_type_specification]
#[verifier::external_body]
pub struct ExTcpError(embassy_net::tcp::Error);

impl TransportError for embassy_net::tcp::Error {

}

/// How a read that was raced against a timer ended.
#[derive(Debug, PartialEq, Eq)]
pub enum ReadRace<E> {
    /// The read ended first, with a number of bytes or an error.
    Read(Result<usize, E>),
    /// The timer ended first.
    TimedOut,
}

/// What a read with a timeout reports. A read of no bytes means that the peer
/// closed the connection.
pub fn read_outcome<E>(race: ReadRace<E>) -> (outcome: Result<usize, MqttError<E>>)
    ensures
        forall|n: usize| outcome == Ok::<usize, MqttError<E>>(n) <==>
            n != 0 && race == ReadRace::<E>::Read(Ok(n)),
        outcome == Err::<usize, MqttError<E>>(MqttError::Protocol(ProtocolError::ConnectionClosed))
            <==> race == ReadRace::<E>::Read(Ok(0)),
        forall|e: E| outcome == Err::<usize, MqttError<E>>(MqttError::Transport(e)) <==>
            race == ReadRace::<E>::Read(Err(e)),
        outcome == Err::<usize, MqttError<E>>(MqttError::Timeout) <==> race is TimedOut,
{
    match race {
        ReadRace::Read(Ok(n)) => {
            if n == 0 {
                Err(MqttError::Protocol(ProtocolError::ConnectionClosed))
            } else {
                Ok(n)
            }
        },
        ReadRace::Read(Err(e)) => Err(MqttError::Transport(e)),
        ReadRace::TimedOut => Err(MqttError::Timeout),
    }
}

/// What a write or a flush reports: its own error, as one of the transport.
pub fn write_outcome<E>(written: Result<(), E>) -> (outcome: Result<(), MqttError<E>>)
    ensures
        outcome is Ok <==> written is Ok,
        forall|e: E| outcome == Err::<(), MqttError<E>>(MqttError::Transport(e)) <==>
            written == Err::<(), E>(e),
{
    match written {
        Ok(()) => Ok(()),
        Err(e) => Err(MqttError::Transport(e)),
    }
}

} // verus!

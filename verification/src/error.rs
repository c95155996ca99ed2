//! What can go wrong while talking to a broker.

use crate::transport::ErrorPlaceHolder;
use vstd::prelude::*;

verus! {

/// A violation of the protocol by the other side.
#[derive(Debug, Clone, Copy, PartialEq, Eq, Structural)]
pub enum ProtocolError {
    /// The reply was not one that the operation can go on with.
    InvalidResponse,
    /// The peer closed the connection.
    ConnectionClosed,
}

/// The error of a client operation over a transport whose own errors are `E`.
#[derive(Debug, PartialEq, Eq)]
pub enum MqttError<E> {
    /// The other side broke the protocol.
    Protocol(ProtocolError),
    /// The transport failed.
    Transport(E),
    /// The operation needs a connection and there is none.
    NotConnected,
    /// The broker refused the connection, with this reason code.
    ConnectionRefused(u8),
    /// The transport gave no answer in time.
    Timeout,
}

/// The same error over a transport with errors `E`. There is none for an error
/// of the transport, which a placeholder does not tell.
pub open spec fn cast<E>(error: MqttError<ErrorPlaceHolder>) -> Option<MqttError<E>> {
    match error {
        MqttError::Protocol(e) => Some(MqttError::Protocol(e)),
        MqttError::Transport(_) => None,
        MqttError::NotConnected => Some(MqttError::NotConnected),
        MqttError::ConnectionRefused(code) => Some(MqttError::ConnectionRefused(code)),
        MqttError::Timeout => Some(MqttError::Timeout),
    }
}

impl MqttError<ErrorPlaceHolder> {
    /// The same error over a transport with errors `E`, or the placeholder where
    /// it stands for an error of the transport.
    pub fn cast_transport_error<E>(self) -> (error: Result<MqttError<E>, ErrorPlaceHolder>)
        ensures
            match cast::<E>(self) {
                Some(e) => error == Ok::<MqttError<E>, ErrorPlaceHolder>(e),
                None => error is Err && self == MqttError::Transport(error->Err_0),
            },
    {
        match self {
            MqttError::Protocol(e) => Ok(MqttError::Protocol(e)),
            MqttError::Transport(placeholder) => Err(placeholder),
            MqttError::NotConnected => Ok(MqttError::NotConnected),
            MqttError::ConnectionRefused(code) => Ok(MqttError::ConnectionRefused(code)),
            MqttError::Timeout => Ok(MqttError::Timeout),
        }
    }
}

} // verus!

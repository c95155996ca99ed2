//! How what the transport and the codec tell becomes an answer of the client.

use crate::error::{MqttError, ProtocolError};
use crate::laws::runs;
use crate::transport::{read_outcome, write_outcome, ErrorPlaceHolder, ReadRace};
use vstd::prelude::*;

verus! {

/// A read succeeds exactly if bytes came in before the timer ended, and tells how
/// many. That none came in, that the read failed and that the timer ended first are
/// each told by an error of its own.
pub proof fn law_read_tells<E>(race: ReadRace<E>, outcome: Result<usize, MqttError<E>>)
    requires
        call_ensures(read_outcome::<E>, (race,), outcome),
    ensures
        match race {
            ReadRace::Read(Ok(count)) => if count > 0 {
                outcome == Ok::<usize, MqttError<E>>(count)
            } else {
                outcome == Err::<usize, MqttError<E>>(
                    MqttError::Protocol(ProtocolError::ConnectionClosed),
                )
            },
            ReadRace::Read(Err(error)) => outcome == Err::<usize, MqttError<E>>(
                MqttError::Transport(error),
            ),
            ReadRace::TimedOut => outcome == Err::<usize, MqttError<E>>(MqttError::Timeout),
        },
{
}

/// No two reads that ended differently are told alike.
pub proof fn law_reads_told_apart<E>(
    one: ReadRace<E>,
    other: ReadRace<E>,
    outcome: Result<usize, MqttError<E>>,
)
    requires
        call_ensures(read_outcome::<E>, (one,), outcome),
        call_ensures(read_outcome::<E>, (other,), outcome),
    ensures
        one == other,
{
    law_read_tells(one, outcome);
    law_read_tells(other, outcome);
}

/// A write succeeds exactly if the transport says so, and otherwise tells the error
/// of the transport.
pub proof fn law_write_tells<E>(written: Result<(), E>, outcome: Result<(), MqttError<E>>)
    requires
        call_ensures(write_outcome::<E>, (written,), outcome),
    ensures
        outcome is Ok <==> written is Ok,
        written matches Err(error) ==> outcome == Err::<(), MqttError<E>>(
            MqttError::Transport(error),
        ),
{
}

/// An error of encoding is told as the same error over any transport. Only an error
/// of the transport, which an encoder has none of, is not.
pub proof fn law_encoding_errors_told<E>(
    error: MqttError<ErrorPlaceHolder>,
    cast: Result<MqttError<E>, ErrorPlaceHolder>,
)
    requires
        call_ensures(MqttError::cast_transport_error::<E>, (error,), cast),
    ensures
        cast is Ok <==> !(error is Transport),
        cast matches Ok(told) ==> runs::reported::<E>(error) == Some(told),
{
}

} // verus!

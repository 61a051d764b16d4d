//! The ways in which the driver ends, and the two error vocabularies of the
//! layers below it.

use vstd::prelude::*;
use crate::request::Stream;

verus! {

/// An error of the transport engine.
#[derive(Copy, Clone, Debug, PartialEq, Eq)]
pub enum QuicError {
    /// There is no more work to do.
    Done,
    BufferTooShort,
    UnknownVersion,
    InvalidFrame,
    InvalidPacket,
    InvalidState,
    /// The stream, by its id, is in a state that rules the operation out.
    InvalidStreamState(u64),
    InvalidTransportParam,
    CryptoFail,
    TlsFail,
    FlowControl,
    /// The peer's limit on open streams is reached.
    StreamLimit,
    /// The peer stopped the stream, with this code.
    StreamStopped(u64),
    /// The peer reset the stream, with this code.
    StreamReset(u64),
    FinalSize,
    CongestionControl,
    IdLimit,
    OutOfIdentifiers,
    KeyUpdate,
}

/// An error of the application framing layer.
#[derive(Copy, Clone, Debug, PartialEq, Eq)]
pub enum H3Error {
    /// There is no error, or no work to do.
    Done,
    BufferTooShort,
    InternalError,
    ExcessiveLoad,
    IdError,
    StreamCreationError,
    ClosedCriticalStream,
    MissingSettings,
    FrameUnexpected,
    FrameError,
    QpackDecompressionFailed,
    /// The error came from the transport engine.
    TransportError(QuicError),
    /// The stream lacks the capacity for the operation; it may be retried.
    StreamBlocked,
    SettingsError,
    RequestRejected,
    RequestCancelled,
    RequestIncomplete,
    MessageError,
    ConnectError,
    VersionFallback,
}

impl H3Error {
    /// Whether the error only says that the layers below are full for now.
    pub open spec fn spec_is_capacity(self) -> bool {
        self == H3Error::StreamBlocked || self == H3Error::TransportError(QuicError::StreamLimit)
    }

    /// Whether the error only says that the layers below are full for now:
    /// the stream is blocked, or the peer's stream limit is reached.
    #[verifier::when_used_as_spec(spec_is_capacity)]
    pub fn is_capacity(self) -> (b: bool)
        ensures
            b == self.spec_is_capacity(),
    {
        match self {
            H3Error::StreamBlocked => true,
            H3Error::TransportError(QuicError::StreamLimit) => true,
            _ => false,
        }
    }
}

/// Why the driver stopped. Every variant ends the driver; it never retries.
#[derive(Debug)]
pub enum Error {
    /// The socket failed.
    Network(std::io::Error),
    /// The transport engine failed.
    Quic(QuicError),
    /// The application framing layer failed.
    H3(H3Error),
    /// A response could not be handed over.
    StreamSend(tokio::sync::mpsc::error::SendError<Stream>),
    /// The connection is closed: the one ending that is expected.
    Closed,
}

/// What a call into the transport engine means for a loop around it: `Done`
/// ends the loop in peace, any other error ends the driver.
pub open spec fn quic_step<T>(outcome: Result<T, QuicError>) -> Result<Option<T>, Error> {
    match outcome {
        Ok(value) => Ok(Some(value)),
        Err(QuicError::Done) => Ok(None),
        Err(e) => Err(Error::Quic(e)),
    }
}

/// What a call into the framing layer means for a loop around it: `Done`
/// ends the loop in peace, any other error ends the driver.
pub open spec fn h3_step<T>(outcome: Result<T, H3Error>) -> Result<Option<T>, Error> {
    match outcome {
        Ok(value) => Ok(Some(value)),
        Err(H3Error::Done) => Ok(None),
        Err(e) => Err(Error::H3(e)),
    }
}

/// Sorts the outcome of a call into the transport engine: `Ok(Some(..))` to
/// go on with what it returned, `Ok(None)` when it reported `Done`, and the
/// driver's error for anything else.
pub fn settle_quic<T>(outcome: Result<T, QuicError>) -> (step: Result<Option<T>, Error>)
    ensures
        step == quic_step(outcome),
{
    match outcome {
        Ok(value) => Ok(Some(value)),
        Err(QuicError::Done) => Ok(None),
        Err(e) => Err(Error::Quic(e)),
    }
}

/// Sorts the outcome of a call into the framing layer: `Ok(Some(..))` to go
/// on with what it returned, `Ok(None)` when it reported `Done`, and the
/// driver's error for anything else.
pub fn settle_h3<T>(outcome: Result<T, H3Error>) -> (step: Result<Option<T>, Error>)
    ensures
        step == h3_step(outcome),
{
    match outcome {
        Ok(value) => Ok(Some(value)),
        Err(H3Error::Done) => Ok(None),
        Err(e) => Err(Error::H3(e)),
    }
}

} // verus!

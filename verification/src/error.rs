//! Why a playback session ended without completing.

use vstd::prelude::*;

verus! {

/// The component of the pipeline in which an error arose.
#[derive(Clone, Copy, Debug, PartialEq, Eq, Structural)]
pub enum Stage {
    /// The network stream behind the station's address.
    Source,
    /// The incremental audio decoder.
    Decoder,
    /// The audio output device.
    Sink,
}

/// A failure of the stream source.
#[derive(Clone, Copy, Debug, PartialEq, Eq, Structural)]
pub enum StreamError {
    /// The host could not be resolved or the connection could not be made.
    Connect,
    /// The server answered with a status outside the 2xx range.
    Status(u16),
    /// The connection dropped.
    Disconnected,
}

/// A failure of the decoder. Both kinds end the session.
#[derive(Clone, Copy, Debug, PartialEq, Eq, Structural)]
pub enum DecodeError {
    /// The bytes are malformed or truncated.
    Corrupt,
    /// The bytes are not in a container or codec the decoder knows.
    UnsupportedFormat,
}

/// A failure of the audio output.
#[derive(Clone, Copy, Debug, PartialEq, Eq, Structural)]
pub enum SinkError {
    /// No output device could be opened.
    DeviceUnavailable,
    /// The device failed while a block was being rendered.
    RenderFailed,
}

/// How a session that did not complete came to its end.
#[derive(Clone, Copy, Debug, PartialEq, Eq, Structural)]
pub enum Error {
    /// The stream never started.
    ConnectError(StreamError),
    /// The stream died partway.
    StreamInterrupted(StreamError),
    /// The stream carried bad audio data.
    DecodeError(DecodeError),
    /// No audio output was available, or it failed.
    SinkError(SinkError),
    /// The user stopped the session. This is a requested stop, not a failure.
    Cancelled,
}

impl StreamError {
    /// What the status of a response means for the stream source: a status in
    /// the 2xx range opens the stream, any other fails it.
    pub open spec fn spec_check_status(status: u16) -> Result<(), StreamError> {
        if 200 <= status <= 299 {
            Ok(())
        } else {
            Err(StreamError::Status(status))
        }
    }

    #[verifier::when_used_as_spec(spec_check_status)]
    pub fn check_status(status: u16) -> (result: Result<(), StreamError>)
        ensures
            result == StreamError::spec_check_status(status),
    {
        if 200 <= status && status <= 299 {
            Ok(())
        } else {
            Err(StreamError::Status(status))
        }
    }
}

impl Error {
    /// The stage that produced the error; `None` for a requested stop, which
    /// no stage produces.
    pub open spec fn spec_stage(self) -> Option<Stage> {
        match self {
            Error::ConnectError(_) => Some(Stage::Source),
            Error::StreamInterrupted(_) => Some(Stage::Source),
            Error::DecodeError(_) => Some(Stage::Decoder),
            Error::SinkError(_) => Some(Stage::Sink),
            Error::Cancelled => None,
        }
    }

    /// Whether something broke, as opposed to the user stopping playback.
    pub open spec fn spec_is_failure(self) -> bool {
        self != Error::Cancelled
    }

    #[verifier::when_used_as_spec(spec_stage)]
    pub fn stage(self) -> (stage: Option<Stage>)
        ensures
            stage == self.spec_stage(),
    {
        match self {
            Error::ConnectError(_) => Some(Stage::Source),
            Error::StreamInterrupted(_) => Some(Stage::Source),
            Error::DecodeError(_) => Some(Stage::Decoder),
            Error::SinkError(_) => Some(Stage::Sink),
            Error::Cancelled => None,
        }
    }

    #[verifier::when_used_as_spec(spec_is_failure)]
    pub fn is_failure(self) -> (failure: bool)
        ensures
            failure == self.spec_is_failure(),
    {
        match self {
            Error::Cancelled => false,
            _ => true,
        }
    }
}

} // verus!

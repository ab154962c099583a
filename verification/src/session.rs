//! The life cycle of one playback session.
//!
//! A session joins the stream source, the decoder and the sink. It performs no
//! input or output itself: whoever drives it carries out the [`Action`] it
//! asks for and reports what came of it as the next [`Event`]. Opening the
//! stream, reading from the network, a decode step and rendering a block are
//! the points at which the driver may have to wait, and at each of them the
//! session is told whether its cancellation token has fired.

use crate::error::{DecodeError, Error, SinkError, StreamError};
use crate::sink::{PcmBlock, PcmBlockView};
use crate::token::Token;
use vstd::prelude::*;

verus! {

/// The state of a session as its caller sees it.
#[derive(Clone, Copy, Debug, PartialEq, Eq, Structural)]
pub enum SessionState {
    /// No play request has been made yet.
    Idle,
    /// The stream source is being opened.
    Connecting,
    /// Bytes flow through the decoder into the sink.
    Streaming,
    /// The source ended cleanly and the decoder drained.
    Completed,
    /// The cancellation token fired.
    Cancelled,
    /// The source, the decoder or the sink failed.
    Failed,
}

/// Where a session stands, down to the step that is in flight.
#[derive(Clone, Copy, Debug, PartialEq, Eq)]
pub enum Phase {
    Idle,
    /// The stream source is being opened.
    Connecting,
    /// Streaming: a read from the network is in flight.
    Reading,
    /// Streaming: a decode step is in flight.
    Decoding { source_ended: bool },
    /// Streaming: a block is being rendered.
    Rendering { source_ended: bool },
    /// The session is over, with the result that is reported to the caller.
    Done(Result<(), Error>),
}

impl Phase {
    pub open spec fn spec_state(self) -> SessionState {
        match self {
            Phase::Idle => SessionState::Idle,
            Phase::Connecting => SessionState::Connecting,
            Phase::Reading => SessionState::Streaming,
            Phase::Decoding { .. } => SessionState::Streaming,
            Phase::Rendering { .. } => SessionState::Streaming,
            Phase::Done(Ok(())) => SessionState::Completed,
            Phase::Done(Err(Error::Cancelled)) => SessionState::Cancelled,
            Phase::Done(Err(_)) => SessionState::Failed,
        }
    }

    /// Whether the session is over.
    pub open spec fn spec_is_terminal(self) -> bool {
        self is Done
    }

    /// Whether the stream has been opened and the session is not over.
    pub open spec fn is_streaming(self) -> bool {
        self is Reading || self is Decoding || self is Rendering
    }

    /// The result reported to the caller, once the session is over.
    pub open spec fn spec_outcome(self) -> Option<Result<(), Error>> {
        match self {
            Phase::Done(result) => Some(result),
            _ => None,
        }
    }

    #[verifier::when_used_as_spec(spec_state)]
    pub fn state(self) -> (state: SessionState)
        ensures
            state == self.spec_state(),
    {
        match self {
            Phase::Idle => SessionState::Idle,
            Phase::Connecting => SessionState::Connecting,
            Phase::Reading => SessionState::Streaming,
            Phase::Decoding { .. } => SessionState::Streaming,
            Phase::Rendering { .. } => SessionState::Streaming,
            Phase::Done(Ok(())) => SessionState::Completed,
            Phase::Done(Err(Error::Cancelled)) => SessionState::Cancelled,
            Phase::Done(Err(_)) => SessionState::Failed,
        }
    }

    #[verifier::when_used_as_spec(spec_is_terminal)]
    pub fn is_terminal(self) -> (terminal: bool)
        ensures
            terminal == self.spec_is_terminal(),
    {
        match self {
            Phase::Done(_) => true,
            _ => false,
        }
    }

    #[verifier::when_used_as_spec(spec_outcome)]
    pub fn outcome(self) -> (outcome: Option<Result<(), Error>>)
        ensures
            outcome == self.spec_outcome(),
    {
        match self {
            Phase::Done(result) => Some(result),
            _ => None,
        }
    }
}

/// What came of the step that the session asked for.
#[derive(Debug, PartialEq, Eq)]
pub enum Event {
    /// Playback was requested.
    Play,
    /// The stream source is open.
    Opened,
    /// The source delivered the next bytes.
    Chunk(Vec<u8>),
    /// The server closed the connection normally.
    EndOfStream,
    /// The source failed.
    SourceFailed(StreamError),
    /// The decoder filled a block.
    Block(PcmBlock),
    /// The decoder has used up its input. This is no error.
    NeedMore,
    /// The bytes cannot be decoded as audio.
    DecodeFailed(DecodeError),
    /// The sink has taken the block.
    Rendered,
    /// The output device is missing or failed.
    SinkFailed(SinkError),
}

/// The contents of an [`Event`].
pub enum EventView {
    Play,
    Opened,
    Chunk(Seq<u8>),
    EndOfStream,
    SourceFailed(StreamError),
    Block(PcmBlockView),
    NeedMore,
    DecodeFailed(DecodeError),
    Rendered,
    SinkFailed(SinkError),
}

impl View for Event {
    type V = EventView;

    open spec fn view(&self) -> EventView {
        match self {
            Event::Play => EventView::Play,
            Event::Opened => EventView::Opened,
            Event::Chunk(bytes) => EventView::Chunk(bytes@),
            Event::EndOfStream => EventView::EndOfStream,
            Event::SourceFailed(e) => EventView::SourceFailed(*e),
            Event::Block(block) => EventView::Block(block@),
            Event::NeedMore => EventView::NeedMore,
            Event::DecodeFailed(e) => EventView::DecodeFailed(*e),
            Event::Rendered => EventView::Rendered,
            Event::SinkFailed(e) => EventView::SinkFailed(*e),
        }
    }
}

impl EventView {
    /// Whether the event reports a failure of the source, the decoder or the
    /// sink.
    pub open spec fn is_failure(self) -> bool {
        self is SourceFailed || self is DecodeFailed || self is SinkFailed
    }
}

/// What the decoder is given before a decode step.
#[derive(Debug, PartialEq, Eq)]
pub enum Input {
    /// Bytes that the source has just delivered.
    Chunk(Vec<u8>),
    /// Nothing new: the decoder goes on with what it has buffered.
    Buffered,
    /// The notice that the source has ended and no more bytes will come.
    End,
}

/// The contents of an [`Input`].
pub enum InputView {
    Chunk(Seq<u8>),
    Buffered,
    End,
}

impl View for Input {
    type V = InputView;

    open spec fn view(&self) -> InputView {
        match self {
            Input::Chunk(bytes) => InputView::Chunk(bytes@),
            Input::Buffered => InputView::Buffered,
            Input::End => InputView::End,
        }
    }
}

/// What the driver is to do next.
#[derive(Debug, PartialEq, Eq)]
pub enum Action {
    /// Nothing: the event did not concern the session.
    Nothing,
    /// Open the stream behind this address.
    Open(String),
    /// Read the next bytes from the source.
    Read,
    /// Hand the input to the decoder and let it take one step.
    Decode(Input),
    /// Render the block, under the gain that is current at that moment.
    Render(PcmBlock),
    /// Close the source's socket and the sink's device, then report the
    /// result to the caller.
    Finish(Result<(), Error>),
}

/// The contents of an [`Action`].
pub enum ActionView {
    Nothing,
    Open(Seq<char>),
    Read,
    Decode(InputView),
    Render(PcmBlockView),
    Finish(Result<(), Error>),
}

impl View for Action {
    type V = ActionView;

    open spec fn view(&self) -> ActionView {
        match self {
            Action::Nothing => ActionView::Nothing,
            Action::Open(url) => ActionView::Open(url@),
            Action::Read => ActionView::Read,
            Action::Decode(input) => ActionView::Decode(input@),
            Action::Render(block) => ActionView::Render(block@),
            Action::Finish(result) => ActionView::Finish(*result),
        }
    }
}

/// The contents of a [`Session`].
pub struct SessionView {
    pub url: Seq<char>,
    pub phase: Phase,
}

impl SessionView {
    /// The session after the driver has reported `event`, having found the
    /// cancellation token fired (`cancelled`) or not, and the action that the
    /// session answers with.
    ///
    /// A session that is over stays as it is. Otherwise cancellation comes
    /// before everything else. A failure reported while connecting or
    /// streaming ends the session; any other event moves the session on if it
    /// answers the step in flight, and is passed over if it does not.
    pub open spec fn step(self, cancelled: bool, event: EventView) -> (SessionView, ActionView) {
        let stay = (self, ActionView::Nothing);
        if self.phase is Done {
            stay
        } else if cancelled {
            self.finish(Err(Error::Cancelled))
        } else if self.phase is Idle {
            match event {
                EventView::Play => (self.at(Phase::Connecting), ActionView::Open(self.url)),
                _ => stay,
            }
        } else {
            match event {
                EventView::SourceFailed(e) => if self.phase is Connecting {
                    self.finish(Err(Error::ConnectError(e)))
                } else {
                    self.finish(Err(Error::StreamInterrupted(e)))
                },
                EventView::DecodeFailed(e) => self.finish(Err(Error::DecodeError(e))),
                EventView::SinkFailed(e) => self.finish(Err(Error::SinkError(e))),
                EventView::Play => stay,
                EventView::Opened => match self.phase {
                    Phase::Connecting => (self.at(Phase::Reading), ActionView::Read),
                    _ => stay,
                },
                EventView::Chunk(bytes) => match self.phase {
                    Phase::Reading => (
                        self.at(Phase::Decoding { source_ended: false }),
                        ActionView::Decode(InputView::Chunk(bytes)),
                    ),
                    _ => stay,
                },
                EventView::EndOfStream => match self.phase {
                    Phase::Reading => (
                        self.at(Phase::Decoding { source_ended: true }),
                        ActionView::Decode(InputView::End),
                    ),
                    _ => stay,
                },
                EventView::Block(block) => match self.phase {
                    Phase::Decoding { source_ended } => (
                        self.at(Phase::Rendering { source_ended }),
                        ActionView::Render(block),
                    ),
                    _ => stay,
                },
                EventView::NeedMore => match self.phase {
                    Phase::Decoding { source_ended: false } => (self.at(Phase::Reading), ActionView::Read),
                    Phase::Decoding { source_ended: true } => self.finish(Ok(())),
                    _ => stay,
                },
                EventView::Rendered => match self.phase {
                    Phase::Rendering { source_ended } => (
                        self.at(Phase::Decoding { source_ended }),
                        ActionView::Decode(InputView::Buffered),
                    ),
                    _ => stay,
                },
            }
        }
    }

    /// The same session in another phase.
    pub open spec fn at(self, phase: Phase) -> SessionView {
        SessionView { url: self.url, phase }
    }

    /// The session ended with `result`, and the action that releases its
    /// resources and reports the result.
    pub open spec fn finish(self, result: Result<(), Error>) -> (SessionView, ActionView) {
        (self.at(Phase::Done(result)), ActionView::Finish(result))
    }
}

/// One playback session: the run of source, decoder and sink for one address,
/// bound to the cancellation token that was minted for it.
#[derive(Debug)]
pub struct Session {
    url: String,
    token: Token,
    phase: Phase,
}

impl View for Session {
    type V = SessionView;

    closed spec fn view(&self) -> SessionView {
        SessionView { url: self.url@, phase: self.phase }
    }
}

impl Session {
    /// The token that the session is bound to.
    pub closed spec fn token(&self) -> Token {
        self.token
    }

    /// A session for the stream at `url`, before its play request.
    pub fn new(url: String, token: Token) -> (session: Session)
        ensures
            session@ == (SessionView { url: url@, phase: Phase::Idle }),
            session.token() == token,
    {
        Session { url, token, phase: Phase::Idle }
    }

    /// The address of the stream.
    pub fn url(&self) -> (url: &String)
        ensures
            url@ == self@.url,
    {
        &self.url
    }

    pub fn phase(&self) -> (phase: Phase)
        ensures
            phase == self@.phase,
    {
        self.phase
    }

    pub fn state(&self) -> (state: SessionState)
        ensures
            state == self@.phase.spec_state(),
    {
        self.phase.state()
    }

    /// Whether the session is over.
    pub fn is_terminal(&self) -> (terminal: bool)
        ensures
            terminal == self@.phase.spec_is_terminal(),
    {
        self.phase.is_terminal()
    }

    /// The result reported to the caller, once the session is over.
    pub fn outcome(&self) -> (outcome: Option<Result<(), Error>>)
        ensures
            outcome == self@.phase.spec_outcome(),
    {
        self.phase.outcome()
    }

    fn end(&mut self, result: Result<(), Error>) -> (action: Action)
        ensures
            (final(self)@, action@) == old(self)@.finish(result),
            final(self).token() == old(self).token(),
    {
        self.phase = Phase::Done(result);
        Action::Finish(result)
    }

    /// Takes the report of the step in flight, together with what a look at
    /// the cancellation token showed, and answers with the next action.
    pub fn step(&mut self, cancelled: bool, event: Event) -> (action: Action)
        ensures
            (final(self)@, action@) == old(self)@.step(cancelled, event@),
            final(self).token() == old(self).token(),
    {
        match self.phase {
            Phase::Done(_) => {
                return Action::Nothing;
            },
            _ => {},
        }
        if cancelled {
            return self.end(Err(Error::Cancelled));
        }
        match self.phase {
            Phase::Idle => {
                return match event {
                    Event::Play => {
                        self.phase = Phase::Connecting;
                        Action::Open(self.url.clone())
                    },
                    _ => Action::Nothing,
                };
            },
            _ => {},
        }
        match event {
            Event::SourceFailed(e) => match self.phase {
                Phase::Connecting => self.end(Err(Error::ConnectError(e))),
                _ => self.end(Err(Error::StreamInterrupted(e))),
            },
            Event::DecodeFailed(e) => self.end(Err(Error::DecodeError(e))),
            Event::SinkFailed(e) => self.end(Err(Error::SinkError(e))),
            Event::Play => Action::Nothing,
            Event::Opened => match self.phase {
                Phase::Connecting => {
                    self.phase = Phase::Reading;
                    Action::Read
                },
                _ => Action::Nothing,
            },
            Event::Chunk(bytes) => match self.phase {
                Phase::Reading => {
                    self.phase = Phase::Decoding { source_ended: false };
                    Action::Decode(Input::Chunk(bytes))
                },
                _ => Action::Nothing,
            },
            Event::EndOfStream => match self.phase {
                Phase::Reading => {
                    self.phase = Phase::Decoding { source_ended: true };
                    Action::Decode(Input::End)
                },
                _ => Action::Nothing,
            },
            Event::Block(block) => match self.phase {
                Phase::Decoding { source_ended } => {
                    self.phase = Phase::Rendering { source_ended };
                    Action::Render(block)
                },
                _ => Action::Nothing,
            },
            Event::NeedMore => match self.phase {
                Phase::Decoding { source_ended: false } => {
                    self.phase = Phase::Reading;
                    Action::Read
                },
                Phase::Decoding { source_ended: true } => self.end(Ok(())),
                _ => Action::Nothing,
            },
            Event::Rendered => match self.phase {
                Phase::Rendering { source_ended } => {
                    self.phase = Phase::Decoding { source_ended };
                    Action::Decode(Input::Buffered)
                },
                _ => Action::Nothing,
            },
        }
    }

    /// Looks at the session's cancellation token, then takes the report of the
    /// step in flight as [`Session::step`] does.
    ///
    /// The token is shared, so it may be found fired at any call. Once
    /// cancellation has been requested through it, it is.
    pub fn advance(&mut self, event: Event) -> (action: Action)
        ensures
            (final(self)@, action@) == old(self)@.step(true, event@) || (!old(
                self,
            ).token().cancel_requested() && (final(self)@, action@) == old(self)@.step(
                false,
                event@,
            )),
            final(self).token() == old(self).token(),
    {
        let cancelled = self.token.is_cancelled();
        self.step(cancelled, event)
    }
}

} // verus!

//! Verified core of an internet radio player.
//!
//! The crate holds the decisions of the player: the life cycle of a playback
//! session, cooperative cancellation through a shared token, the gain applied
//! to rendered audio, and the controller that reacts to user input. Network
//! transfer, audio decoding and the output device are driven from outside by
//! feeding the session the outcome of each step and performing the action it
//! answers with.
//!
//! - [`session`]: the states of a playback session and its steps.
//! - [`token`]: the cancellation token.
//! - [`decoder`]: when the decoder waits, probes and decodes.
//! - [`sink`]: the gain and the scaling of audio blocks.
//! - [`radio`]: the controller, with [`station`] for its list.
//! - [`error`]: why a session ended without completing.
//! - [`trace`]: what holds of a session after any run of reports.
//! - [`world`]: what holds of controller, tokens and sessions together.

pub mod decoder;
pub mod error;
pub mod radio;
pub mod session;
pub mod sink;
pub mod station;
pub mod token;
pub mod trace;
pub mod world;

pub use error::{DecodeError, Error, SinkError, Stage, StreamError};

//! Error values shared by every component of the player.

use vstd::prelude::*;
use vstd::string::*;

verus! {

/// Failure reported by a player component: the kind of failure and a message.
#[derive(Debug, Clone)]
pub enum PlayerError {
    /// Error during demuxing operations.
    Demuxer(String),
    /// Error during decoding operations.
    Decoder(String),
    /// Error with frame buffer operations.
    FrameBuffer(String),
    /// Error parsing or rendering subtitles.
    Subtitle(String),
    /// Invalid or unsupported media format.
    InvalidFormat(String),
    /// I/O error during file operations.
    Io(String),
    /// General internal error.
    Internal(String),
}

impl PlayerError {
    /// The message carried by the error, without the label of its kind.
    pub open spec fn message(&self) -> Seq<char> {
        match self {
            PlayerError::Demuxer(m) => m@,
            PlayerError::Decoder(m) => m@,
            PlayerError::FrameBuffer(m) => m@,
            PlayerError::Subtitle(m) => m@,
            PlayerError::InvalidFormat(m) => m@,
            PlayerError::Io(m) => m@,
            PlayerError::Internal(m) => m@,
        }
    }

    /// The label that introduces the message in the rendered text.
    pub open spec fn label(&self) -> Seq<char> {
        match self {
            PlayerError::Demuxer(_) => "Demuxer error: "@,
            PlayerError::Decoder(_) => "Decoder error: "@,
            PlayerError::FrameBuffer(_) => "FrameBuffer error: "@,
            PlayerError::Subtitle(_) => "Subtitle error: "@,
            PlayerError::InvalidFormat(_) => "Invalid format: "@,
            PlayerError::Io(_) => "I/O error: "@,
            PlayerError::Internal(_) => "Internal error: "@,
        }
    }

    /// The rendered text of the error: its label followed by its message.
    pub open spec fn text(&self) -> Seq<char> {
        self.label() + self.message()
    }

    /// Creates a new demuxer error.
    pub fn demuxer(msg: &str) -> (e: PlayerError)
        ensures
            e is Demuxer,
            e.message() == msg@,
    {
        PlayerError::Demuxer(String::from_str(msg))
    }

    /// Creates a new decoder error.
    pub fn decoder(msg: &str) -> (e: PlayerError)
        ensures
            e is Decoder,
            e.message() == msg@,
    {
        PlayerError::Decoder(String::from_str(msg))
    }

    /// Creates a new frame buffer error.
    pub fn frame_buffer(msg: &str) -> (e: PlayerError)
        ensures
            e is FrameBuffer,
            e.message() == msg@,
    {
        PlayerError::FrameBuffer(String::from_str(msg))
    }

    /// Creates a new subtitle error.
    pub fn subtitle(msg: &str) -> (e: PlayerError)
        ensures
            e is Subtitle,
            e.message() == msg@,
    {
        PlayerError::Subtitle(String::from_str(msg))
    }

    /// Creates a new invalid format error.
    pub fn invalid_format(msg: &str) -> (e: PlayerError)
        ensures
            e is InvalidFormat,
            e.message() == msg@,
    {
        PlayerError::InvalidFormat(String::from_str(msg))
    }

    /// Creates a new I/O error.
    pub fn io(msg: &str) -> (e: PlayerError)
        ensures
            e is Io,
            e.message() == msg@,
    {
        PlayerError::Io(String::from_str(msg))
    }

    /// Creates a new internal error.
    pub fn internal(msg: &str) -> (e: PlayerError)
        ensures
            e is Internal,
            e.message() == msg@,
    {
        PlayerError::Internal(String::from_str(msg))
    }

    /// Renders the error as text for the host.
    pub fn to_string(&self) -> (s: String)
        ensures
            s@ == self.text(),
    {
        match self {
            PlayerError::Demuxer(m) => String::from_str("Demuxer error: ").concat(m.as_str()),
            PlayerError::Decoder(m) => String::from_str("Decoder error: ").concat(m.as_str()),
            PlayerError::FrameBuffer(m) => String::from_str("FrameBuffer error: ").concat(
                m.as_str(),
            ),
            PlayerError::Subtitle(m) => String::from_str("Subtitle error: ").concat(m.as_str()),
            PlayerError::InvalidFormat(m) => String::from_str("Invalid format: ").concat(
                m.as_str(),
            ),
            PlayerError::Io(m) => String::from_str("I/O error: ").concat(m.as_str()),
            PlayerError::Internal(m) => String::from_str("Internal error: ").concat(m.as_str()),
        }
    }
}

} // verus!

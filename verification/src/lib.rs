//! Orchestration core of a media playback engine.
//!
//! The crate coordinates container detection, codec sessions, bounded frame
//! buffering and subtitle-cue timing behind one playback state machine:
//!
//! ```text
//! Demuxer --packet--> Decoder --frame--> FrameBuffer --pop--> host
//!
//! SubtitleTrack <--query by timestamp-- host
//! ```
//!
//! Every function is verified against the contract written on it.

pub mod decoder;
pub mod demuxer;
pub mod error;
pub mod frame_buffer;
pub mod json;
pub mod player;
pub mod subtitle;
pub mod text;

pub use decoder::{AudioDecoder, VideoDecoder};
pub use demuxer::Demuxer;
pub use error::PlayerError;
pub use frame_buffer::{AudioFrameBuffer, FrameBufferManager, VideoFrameBuffer};
pub use player::{version, PlayerCore, PlayerState};
pub use subtitle::{SubtitleParser, SubtitleTrack};

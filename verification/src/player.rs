//! The playback controller: one state machine over the player's components.
//!
//! The controller owns the stream source, the two codec sessions, the frame
//! buffers and the subtitle parser, and is the only surface that the host
//! drives. Every operation returns at once with a result or with the text of
//! an error. A transition that the state does not allow is refused and
//! changes nothing.

use crate::decoder::{AudioDecoder, VideoDecoder};
use crate::demuxer::{container_format_of, ContainerFormat, Demuxer, MIN_HEADER_LEN};
use crate::frame_buffer::{
    BufferStats, FrameBufferManager, DEFAULT_AUDIO_FRAMES, DEFAULT_VIDEO_FRAMES,
};
use crate::json::{json_object, json_object_text, number_members, outcome_text, text_members};
use crate::subtitle::{detected_format, srt_cues, SubtitleFormat, SubtitleParser};
use vstd::prelude::*;
use vstd::string::*;

verus! {

/// Returns the library version.
pub fn version() -> (v: String)
    ensures
        v@ == "0.1.0"@,
{
    "0.1.0".to_owned()
}

/// Player state enumeration.
#[derive(Debug, Clone, Copy, PartialEq, Eq, Structural)]
pub enum PlayerState {
    /// Initial state, no media loaded.
    Idle,
    /// Media is being loaded.
    Loading,
    /// Media is loaded and ready to play.
    Ready,
    /// Media is currently playing.
    Playing,
    /// Playback is paused.
    Paused,
    /// Playback has ended.
    Ended,
    /// An error occurred.
    Error,
}

impl PlayerState {
    /// Media is loaded only into an idle player.
    pub open spec fn can_load(self) -> bool {
        self == PlayerState::Idle
    }

    /// Playback starts from a loaded player that is not playing.
    pub open spec fn can_play(self) -> bool {
        self == PlayerState::Ready || self == PlayerState::Paused
    }

    /// Only a playing player is paused.
    pub open spec fn can_pause(self) -> bool {
        self == PlayerState::Playing
    }

    /// The states in which media is loaded and playback can go on.
    pub open spec fn is_active(self) -> bool {
        self == PlayerState::Ready || self == PlayerState::Playing || self == PlayerState::Paused
    }

    /// The state after a load whose stream source accepted the data
    /// (`accepted`) or refused it. A refused transition keeps the state.
    pub open spec fn after_load(self, accepted: bool) -> PlayerState {
        if !self.can_load() {
            self
        } else if accepted {
            PlayerState::Ready
        } else {
            PlayerState::Loading
        }
    }

    /// The state after a call of play. A refused transition keeps the state.
    pub open spec fn after_play(self) -> PlayerState {
        if self.can_play() {
            PlayerState::Playing
        } else {
            self
        }
    }

    /// The state after a call of pause. A refused transition keeps the state.
    pub open spec fn after_pause(self) -> PlayerState {
        if self.can_pause() {
            PlayerState::Paused
        } else {
            self
        }
    }
}

/// From an idle player, load, play, pause and play are each accepted in
/// turn, and the player is then playing. Play is refused in an idle player,
/// and pause in one that is ready.
pub proof fn lemma_load_play_pause_play()
    ensures
        PlayerState::Idle.can_load(),
        PlayerState::Idle.after_load(true).can_play(),
        PlayerState::Idle.after_load(true).after_play().can_pause(),
        PlayerState::Idle.after_load(true).after_play().after_pause().can_play(),
        PlayerState::Idle.after_load(true).after_play().after_pause().after_play()
            == PlayerState::Playing,
        !PlayerState::Idle.can_play(),
        !PlayerState::Ready.can_pause(),
{
}

/// A seek resets the buffers: after a seek that was accepted, the snapshot
/// reports no frame in either buffer and the capacities as before, whatever
/// the buffers held.
pub proof fn lemma_seek_resets_buffers(before: PlayerCore, after: PlayerCore, r: Result<(), String>)
    requires
        before.seek_gives(&after, r),
        r is Ok,
    ensures
        stats_members(after.spec_frame_buffer().spec_stats()) == seq![
            ("videoFrames"@, 0usize),
            ("videoCapacity"@, before.spec_frame_buffer().spec_stats().video_capacity),
            ("audioFrames"@, 0usize),
            ("audioCapacity"@, before.spec_frame_buffer().spec_stats().audio_capacity),
        ],
{
}

/// The textual name of a container format.
pub open spec fn container_name(format: ContainerFormat) -> Seq<char> {
    match format {
        ContainerFormat::Mp4 => "Mp4"@,
        ContainerFormat::Mkv => "Mkv"@,
        ContainerFormat::WebM => "WebM"@,
        ContainerFormat::Unknown => "Unknown"@,
    }
}

/// The textual name of a subtitle format.
pub open spec fn subtitle_format_name(format: SubtitleFormat) -> Seq<char> {
    match format {
        SubtitleFormat::Srt => "Srt"@,
        SubtitleFormat::Ass => "Ass"@,
        SubtitleFormat::Vtt => "Vtt"@,
    }
}

/// The members of the buffer snapshot, each a name and a number.
pub open spec fn stats_members(stats: BufferStats) -> Seq<(Seq<char>, usize)> {
    seq![
        ("videoFrames"@, stats.video_frames),
        ("videoCapacity"@, stats.video_capacity),
        ("audioFrames"@, stats.audio_frames),
        ("audioCapacity"@, stats.audio_capacity),
    ]
}

/// The buffer snapshot as text: what was written, or the empty JSON object
/// where writing failed.
pub open spec fn snapshot_text(written: Result<Seq<char>, Seq<char>>) -> Seq<char> {
    match written {
        Ok(text) => text,
        Err(_) => "{}"@,
    }
}

/// The text of the error that refuses subtitles in a format that cannot be read.
pub open spec fn unsupported_subtitles(format: SubtitleFormat) -> Seq<char> {
    match format {
        SubtitleFormat::Vtt => "Subtitle error: "@ + "WebVTT subtitles are not supported"@,
        _ => "Subtitle error: "@ + "ASS/SSA subtitles are not supported"@,
    }
}

/// What loading subtitles from `data` gives the host: the summary of the
/// track as JSON text, with the name of the format and the number of cues,
/// or the text of the error.
pub open spec fn subtitle_summary(data: Seq<char>) -> Result<Seq<char>, Seq<char>> {
    if data.len() == 0 {
        Err("Subtitle error: "@ + "Empty subtitle data"@)
    } else if detected_format(data) == SubtitleFormat::Srt {
        json_object_text(
            seq![("cueCount"@, srt_cues(data).len() as usize)],
            seq![("format"@, "Srt"@)],
        )
    } else {
        Err(unsupported_subtitles(detected_format(data)))
    }
}

/// The name of a container format.
pub fn container_format_name(format: ContainerFormat) -> (name: String)
    ensures
        name@ == container_name(format),
{
    match format {
        ContainerFormat::Mp4 => "Mp4".to_owned(),
        ContainerFormat::Mkv => "Mkv".to_owned(),
        ContainerFormat::WebM => "WebM".to_owned(),
        ContainerFormat::Unknown => "Unknown".to_owned(),
    }
}

/// The name of a subtitle format.
pub fn format_name(format: SubtitleFormat) -> (name: String)
    ensures
        name@ == subtitle_format_name(format),
{
    match format {
        SubtitleFormat::Srt => "Srt".to_owned(),
        SubtitleFormat::Ass => "Ass".to_owned(),
        SubtitleFormat::Vtt => "Vtt".to_owned(),
    }
}

/// The members of the buffer snapshot.
pub fn stats_entries(stats: &BufferStats) -> (members: Vec<(String, usize)>)
    ensures
        number_members(members@) == stats_members(*stats),
{
    let mut members: Vec<(String, usize)> = Vec::new();
    members.push(("videoFrames".to_owned(), stats.video_frames));
    members.push(("videoCapacity".to_owned(), stats.video_capacity));
    members.push(("audioFrames".to_owned(), stats.audio_frames));
    members.push(("audioCapacity".to_owned(), stats.audio_capacity));
    members
}

/// The snapshot text for what the JSON writer gave: the text that was
/// written, or `{}` in place of an error.
pub fn snapshot_or_empty(written: Result<String, String>) -> (text: String)
    ensures
        text@ == snapshot_text(outcome_text(written)),
{
    match written {
        Ok(text) => text,
        Err(_) => "{}".to_owned(),
    }
}

/// Main player core structure handed to the host.
pub struct PlayerCore {
    state: PlayerState,
    demuxer: Demuxer,
    video_decoder: VideoDecoder,
    audio_decoder: AudioDecoder,
    frame_buffer: FrameBufferManager,
    subtitle_parser: SubtitleParser,
}

impl PlayerCore {
    /// The state of the player.
    pub closed spec fn spec_state(&self) -> PlayerState {
        self.state
    }

    /// The stream source of the player.
    pub closed spec fn spec_demuxer(&self) -> Demuxer {
        self.demuxer
    }

    /// The video session of the player.
    pub closed spec fn spec_video_decoder(&self) -> VideoDecoder {
        self.video_decoder
    }

    /// The audio session of the player.
    pub closed spec fn spec_audio_decoder(&self) -> AudioDecoder {
        self.audio_decoder
    }

    /// The frame buffers of the player.
    pub closed spec fn spec_frame_buffer(&self) -> FrameBufferManager {
        self.frame_buffer
    }

    /// The state and the components agree: media is loaded in the stream
    /// source exactly in the active states, as far as the operations of the
    /// player lead, and neither buffer holds more than its capacity.
    pub open spec fn is_consistent(&self) -> bool {
        &&& self.spec_state().is_active() ==> self.spec_demuxer().spec_is_initialized()
        &&& self.spec_state() == PlayerState::Idle || self.spec_state() == PlayerState::Loading
            ==> !self.spec_demuxer().spec_is_initialized()
        &&& self.spec_frame_buffer().within_capacity()
    }

    /// Whether the player is as a new one: idle, with nothing loaded, no
    /// session initialised and empty buffers of the default capacities.
    pub open spec fn is_fresh(&self) -> bool {
        &&& self.spec_state() == PlayerState::Idle
        &&& !self.spec_demuxer().spec_is_initialized()
        &&& self.spec_demuxer().spec_format() is None
        &&& self.spec_demuxer().spec_streams().len() == 0
        &&& self.spec_demuxer().spec_data().len() == 0
        &&& self.spec_demuxer().spec_position() == 0
        &&& !self.spec_video_decoder().spec_is_initialized()
        &&& self.spec_video_decoder().spec_codec() is None
        &&& self.spec_video_decoder().spec_config().hardware_acceleration
        &&& self.spec_video_decoder().spec_config().threads == 0
        &&& !self.spec_audio_decoder().spec_is_initialized()
        &&& self.spec_audio_decoder().spec_codec() is None
        &&& self.spec_audio_decoder().spec_config().hardware_acceleration
        &&& self.spec_audio_decoder().spec_config().threads == 0
        &&& self.spec_frame_buffer().video@.len() == 0
        &&& self.spec_frame_buffer().audio@.len() == 0
        &&& self.spec_frame_buffer().video.spec_capacity() == DEFAULT_VIDEO_FRAMES
        &&& self.spec_frame_buffer().audio.spec_capacity() == DEFAULT_AUDIO_FRAMES
    }

    /// Whether nothing but the state differs between `self` and `other`.
    pub open spec fn same_components(&self, other: &PlayerCore) -> bool {
        &&& self.spec_demuxer() == other.spec_demuxer()
        &&& self.spec_video_decoder() == other.spec_video_decoder()
        &&& self.spec_audio_decoder() == other.spec_audio_decoder()
        &&& self.spec_frame_buffer() == other.spec_frame_buffer()
    }

    /// What a seek makes of the player `self`: the player `after` and the
    /// result `r`. State, stream source, codec sessions and the capacities of
    /// the buffers stay. Where the stream source holds media the seek is
    /// accepted and both buffers are empty after it; where it holds none the
    /// seek is refused and nothing changes.
    pub open spec fn seek_gives(&self, after: &PlayerCore, r: Result<(), String>) -> bool {
        &&& after.spec_state() == self.spec_state()
        &&& after.spec_demuxer() == self.spec_demuxer()
        &&& after.spec_video_decoder() == self.spec_video_decoder()
        &&& after.spec_audio_decoder() == self.spec_audio_decoder()
        &&& after.spec_frame_buffer().video.spec_capacity()
            == self.spec_frame_buffer().video.spec_capacity()
        &&& after.spec_frame_buffer().audio.spec_capacity()
            == self.spec_frame_buffer().audio.spec_capacity()
        &&& if self.spec_demuxer().spec_is_initialized() {
            &&& r is Ok
            &&& after.spec_frame_buffer().video@.len() == 0
            &&& after.spec_frame_buffer().audio@.len() == 0
        } else {
            &&& r matches Err(text) && text@ == "Demuxer error: "@ + "Demuxer not initialized"@
            &&& *after == *self
        }
    }

    /// Creates a new PlayerCore instance.
    pub fn new() -> (player: PlayerCore)
        ensures
            player.is_fresh(),
            player.is_consistent(),
    {
        PlayerCore {
            state: PlayerState::Idle,
            demuxer: Demuxer::new(),
            video_decoder: VideoDecoder::default(),
            audio_decoder: AudioDecoder::default(),
            frame_buffer: FrameBufferManager::default(),
            subtitle_parser: SubtitleParser::new(),
        }
    }

    /// Returns the current player state.
    pub fn state(&self) -> (state: PlayerState)
        ensures
            state == self.spec_state(),
    {
        self.state
    }

    /// Loads media data into the player.
    ///
    /// `data` is the raw container file data (MP4, MKV, etc.). Only an idle
    /// player loads: any other refuses with "Cannot load: invalid state" and
    /// stays as it was. An idle player hands the data to its stream source.
    /// Where that accepts, the player is ready; where it refuses, the player
    /// stays in the loading state and the error of the stream source is
    /// returned as text.
    pub fn load(&mut self, data: Vec<u8>) -> (r: Result<(), String>)
        ensures
            final(self).spec_state() == old(self).spec_state().after_load(
                data@.len() >= MIN_HEADER_LEN,
            ),
            final(self).spec_video_decoder() == old(self).spec_video_decoder(),
            final(self).spec_audio_decoder() == old(self).spec_audio_decoder(),
            final(self).spec_frame_buffer() == old(self).spec_frame_buffer(),
            old(self).is_consistent() ==> final(self).is_consistent(),
            !old(self).spec_state().can_load() ==> (r matches Err(text) && text@
                == "Cannot load: invalid state"@ && *final(self) == *old(self)),
            old(self).spec_state().can_load() && data@.len() == 0 ==> (r matches Err(text) && text@
                == "Demuxer error: "@ + "Empty data provided"@),
            old(self).spec_state().can_load() && 0 < data@.len() < MIN_HEADER_LEN ==> (
            r matches Err(text) && text@ == "Invalid format: "@
                + "Data too short to detect format"@),
            old(self).spec_state().can_load() && data@.len() < MIN_HEADER_LEN ==> final(self).spec_demuxer() == old(self).spec_demuxer(),
            old(self).spec_state().can_load() && data@.len() >= MIN_HEADER_LEN ==> {
                &&& r is Ok
                &&& final(self).spec_demuxer().spec_is_initialized()
                &&& final(self).spec_demuxer().spec_format() == Some(container_format_of(data@))
                &&& final(self).spec_demuxer().spec_data() == data@
            },
    {
        if self.state != PlayerState::Idle {
            return Err("Cannot load: invalid state".to_owned());
        }
        self.state = PlayerState::Loading;
        match self.demuxer.init(data) {
            Ok(()) => {},
            Err(e) => { return Err(e.to_string()); },
        }
        self.state = PlayerState::Ready;
        Ok(())
    }

    /// Starts playback.
    ///
    /// A player that is ready or paused starts playing. Any other refuses
    /// with "Cannot play: invalid state" and stays as it was.
    pub fn play(&mut self) -> (r: Result<(), String>)
        ensures
            final(self).spec_state() == old(self).spec_state().after_play(),
            final(self).same_components(old(self)),
            old(self).is_consistent() ==> final(self).is_consistent(),
            old(self).spec_state().can_play() ==> r is Ok,
            !old(self).spec_state().can_play() ==> (r matches Err(text) && text@
                == "Cannot play: invalid state"@),
    {
        if self.state != PlayerState::Ready && self.state != PlayerState::Paused {
            return Err("Cannot play: invalid state".to_owned());
        }
        self.state = PlayerState::Playing;
        Ok(())
    }

    /// Pauses playback.
    ///
    /// A playing player is paused. Any other refuses with "Cannot pause: not
    /// playing" and stays as it was.
    pub fn pause(&mut self) -> (r: Result<(), String>)
        ensures
            final(self).spec_state() == old(self).spec_state().after_pause(),
            final(self).same_components(old(self)),
            old(self).is_consistent() ==> final(self).is_consistent(),
            old(self).spec_state().can_pause() ==> r is Ok,
            !old(self).spec_state().can_pause() ==> (r matches Err(text) && text@
                == "Cannot pause: not playing"@),
    {
        if self.state != PlayerState::Playing {
            return Err("Cannot pause: not playing".to_owned());
        }
        self.state = PlayerState::Paused;
        Ok(())
    }

    /// Seeks to a specific timestamp.
    ///
    /// `timestamp_ms` is the target timestamp in milliseconds. A player whose
    /// stream source holds no media refuses with the error of the stream
    /// source as text and stays as it was. Otherwise the stream source seeks,
    /// both frame buffers are emptied, and what the codec sessions hold back
    /// is flushed and dropped. The state is the same after a seek.
    pub fn seek(&mut self, timestamp_ms: u64) -> (r: Result<(), String>)
        ensures
            old(self).seek_gives(final(self), r),
            old(self).is_consistent() ==> final(self).is_consistent(),
    {
        match self.demuxer.seek(timestamp_ms) {
            Ok(()) => {},
            Err(e) => { return Err(e.to_string()); },
        }
        self.frame_buffer.clear();
        let _ = self.video_decoder.flush();
        let _ = self.audio_decoder.flush();
        Ok(())
    }

    /// Resets the player to idle state.
    ///
    /// Every component is dropped and made anew: nothing is carried over.
    pub fn reset(&mut self)
        ensures
            final(self).is_fresh(),
            final(self).is_consistent(),
    {
        self.state = PlayerState::Idle;
        self.demuxer = Demuxer::new();
        self.video_decoder = VideoDecoder::default();
        self.audio_decoder = AudioDecoder::default();
        self.frame_buffer = FrameBufferManager::default();
        self.subtitle_parser = SubtitleParser::new();
    }

    /// Returns the detected container format.
    ///
    /// The name of the container family, or `None` where nothing was loaded.
    pub fn format(&self) -> (name: Option<String>)
        ensures
            match self.spec_demuxer().spec_format() {
                Some(format) => name matches Some(text) && text@ == container_name(format),
                None => name is None,
            },
    {
        match self.demuxer.format() {
            Some(format) => Some(container_format_name(format)),
            None => None,
        }
    }

    /// Returns buffer statistics as JSON.
    ///
    /// The JSON object has the members `videoFrames`, `videoCapacity`,
    /// `audioFrames` and `audioCapacity`.
    pub fn buffer_stats(&self) -> (text: String)
        ensures
            text@ == snapshot_text(
                json_object_text(
                    stats_members(self.spec_frame_buffer().spec_stats()),
                    Seq::empty(),
                ),
            ),
    {
        let stats = self.frame_buffer.stats();
        let texts: Vec<(String, String)> = Vec::new();
        assert(text_members(texts@) =~= Seq::empty());
        snapshot_or_empty(json_object(&stats_entries(&stats), &texts))
    }

    /// Loads subtitles from text content.
    ///
    /// The format is detected from the content. Returns a JSON object with
    /// the members `format` and `cueCount`, or the text of the error.
    pub fn load_subtitles(&self, data: &str) -> (r: Result<String, String>)
        ensures
            outcome_text(r) == subtitle_summary(data@),
    {
        let track = match self.subtitle_parser.parse(data, None) {
            Ok(track) => track,
            Err(e) => { return Err(e.to_string()); },
        };
        let mut numbers: Vec<(String, usize)> = Vec::new();
        numbers.push(("cueCount".to_owned(), track.cue_count()));
        let mut texts: Vec<(String, String)> = Vec::new();
        texts.push(("format".to_owned(), format_name(track.format)));
        assert(number_members(numbers@) =~= seq![("cueCount"@, srt_cues(data@).len() as usize)]);
        assert(text_members(texts@) =~= seq![("format"@, "Srt"@)]);
        json_object(&numbers, &texts)
    }
}

impl Default for PlayerCore {
    /// A new player.
    fn default() -> (player: PlayerCore)
        ensures
            player.is_fresh(),
            player.is_consistent(),
    {
        PlayerCore::new()
    }
}

} // verus!

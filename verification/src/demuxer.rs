//! Stream source: container detection and the packet interface.
//!
//! The container family is told from fixed bytes of the header. No container
//! parser is attached: a recognised container is listed with one video stream
//! of unknown codec, and there are no packets to read.

use crate::error::PlayerError;
use vstd::prelude::*;

verus! {

/// Supported container formats.
#[derive(Debug, Clone, Copy, PartialEq, Eq, Structural)]
pub enum ContainerFormat {
    /// MPEG-4 Part 14 container.
    Mp4,
    /// Matroska container.
    Mkv,
    /// WebM container (subset of Matroska).
    WebM,
    /// Unknown or unsupported format.
    Unknown,
}

/// Type of media stream.
#[derive(Debug, Clone, Copy, PartialEq, Eq, Structural)]
pub enum StreamType {
    /// Video stream.
    Video,
    /// Audio stream.
    Audio,
    /// Subtitle stream.
    Subtitle,
}

/// Information about a media stream.
#[derive(Debug, Clone)]
pub struct StreamInfo {
    /// Stream index within the container.
    pub index: u32,
    /// Stream type.
    pub stream_type: StreamType,
    /// Codec identifier.
    pub codec: String,
    /// Duration in milliseconds.
    pub duration_ms: Option<u64>,
}

/// A demuxed packet containing encoded data.
#[derive(Debug, Clone)]
pub struct Packet {
    /// Stream index this packet belongs to.
    pub stream_index: u32,
    /// Presentation timestamp in milliseconds.
    pub pts_ms: u64,
    /// Decode timestamp in milliseconds.
    pub dts_ms: u64,
    /// Whether this is a keyframe.
    pub is_keyframe: bool,
    /// Encoded data.
    pub data: Vec<u8>,
}

/// Demuxer for parsing container formats and extracting streams.
#[derive(Debug)]
pub struct Demuxer {
    /// The detected container format.
    format: Option<ContainerFormat>,
    /// Information about available streams.
    streams: Vec<StreamInfo>,
    /// Raw container data.
    data: Vec<u8>,
    /// Current read position.
    position: usize,
    /// Whether the demuxer has been initialized.
    initialized: bool,
}

/// The least number of bytes from which a container can be told.
pub const MIN_HEADER_LEN: usize = 12;

/// The box type `ftyp` in ASCII, which follows the size of the first box of
/// an MPEG-4 file.
pub open spec fn ftyp_tag() -> Seq<u8> {
    seq![0x66u8, 0x74u8, 0x79u8, 0x70u8]
}

/// The four bytes that begin an EBML header, and so a Matroska file.
pub open spec fn ebml_magic() -> Seq<u8> {
    seq![0x1Au8, 0x45u8, 0xDFu8, 0xA3u8]
}

/// The container family of a header of at least `MIN_HEADER_LEN` bytes:
/// MPEG-4 where bytes 4 to 7 are `ftyp`, whatever the other bytes hold;
/// otherwise Matroska where bytes 0 to 3 are the EBML magic; otherwise unknown.
pub open spec fn container_format_of(data: Seq<u8>) -> ContainerFormat {
    if data.subrange(4, 8) == ftyp_tag() {
        ContainerFormat::Mp4
    } else if data.subrange(0, 4) == ebml_magic() {
        ContainerFormat::Mkv
    } else {
        ContainerFormat::Unknown
    }
}

/// Detection goes by the fixed bytes alone: a header with `ftyp` in bytes 4
/// to 7 is MPEG-4 whatever its other bytes hold; a header without it that
/// begins with the EBML magic is Matroska; any other header is unknown.
pub proof fn lemma_container_detection(data: Seq<u8>)
    requires
        data.len() >= MIN_HEADER_LEN,
    ensures
        data.subrange(4, 8) == ftyp_tag() ==> container_format_of(data) == ContainerFormat::Mp4,
        data.subrange(4, 8) != ftyp_tag() && data.subrange(0, 4) == ebml_magic()
            ==> container_format_of(data) == ContainerFormat::Mkv,
        data.subrange(4, 8) != ftyp_tag() && data.subrange(0, 4) != ebml_magic()
            ==> container_format_of(data) == ContainerFormat::Unknown,
{
}

/// Whether streams are listed for a container of this format.
pub open spec fn is_recognised(format: Option<ContainerFormat>) -> bool {
    format matches Some(f) && f != ContainerFormat::Unknown
}

/// Whether `stream` is the entry listed for a recognised container: the
/// first stream, video, of unknown codec and duration.
pub open spec fn is_listed_stream(stream: StreamInfo) -> bool {
    &&& stream.index == 0
    &&& stream.stream_type == StreamType::Video
    &&& stream.codec@ == "unknown"@
    &&& stream.duration_ms is None
}

/// The streams listed after the container of the given format was read, where
/// `before` were listed already.
pub open spec fn listed_streams(
    before: Seq<StreamInfo>,
    format: Option<ContainerFormat>,
    after: Seq<StreamInfo>,
) -> bool {
    if is_recognised(format) {
        &&& after.len() == before.len() + 1
        &&& after.drop_last() == before
        &&& is_listed_stream(after.last())
    } else {
        after == before
    }
}

impl Default for Demuxer {
    /// An empty demuxer, not initialised.
    fn default() -> (demuxer: Demuxer)
        ensures
            !demuxer.spec_is_initialized(),
            demuxer.spec_format() is None,
            demuxer.spec_streams().len() == 0,
            demuxer.spec_data().len() == 0,
            demuxer.spec_position() == 0,
    {
        Demuxer::new()
    }
}

impl Demuxer {
    /// Whether the demuxer has been initialised.
    pub closed spec fn spec_is_initialized(&self) -> bool {
        self.initialized
    }

    /// The container format that was detected.
    pub closed spec fn spec_format(&self) -> Option<ContainerFormat> {
        self.format
    }

    /// The streams that are listed.
    pub closed spec fn spec_streams(&self) -> Seq<StreamInfo> {
        self.streams@
    }

    /// The container data that the demuxer holds.
    pub closed spec fn spec_data(&self) -> Seq<u8> {
        self.data@
    }

    /// The read position in the container data.
    pub closed spec fn spec_position(&self) -> nat {
        self.position as nat
    }

    /// Creates a new empty demuxer.
    pub fn new() -> (demuxer: Demuxer)
        ensures
            !demuxer.spec_is_initialized(),
            demuxer.spec_format() is None,
            demuxer.spec_streams().len() == 0,
            demuxer.spec_data().len() == 0,
            demuxer.spec_position() == 0,
    {
        Demuxer {
            format: None,
            streams: Vec::new(),
            data: Vec::new(),
            position: 0,
            initialized: false,
        }
    }

    /// Initializes the demuxer with container data.
    ///
    /// Empty data is refused with the demuxer error "Empty data provided",
    /// and data of fewer than `MIN_HEADER_LEN` bytes as an invalid format;
    /// the demuxer is then left as it was. Any other data is taken over: its
    /// format is detected, reading starts at its beginning, and the streams
    /// of a recognised container are listed after those listed before.
    pub fn init(&mut self, data: Vec<u8>) -> (r: Result<(), PlayerError>)
        ensures
            data@.len() == 0 ==> (r matches Err(e) && e is Demuxer && e.message()
                == "Empty data provided"@),
            0 < data@.len() < MIN_HEADER_LEN ==> (r matches Err(e) && e is InvalidFormat
                && e.message() == "Data too short to detect format"@),
            data@.len() < MIN_HEADER_LEN ==> *final(self) == *old(self),
            data@.len() >= MIN_HEADER_LEN ==> {
                &&& r is Ok
                &&& final(self).spec_is_initialized()
                &&& final(self).spec_format() == Some(container_format_of(data@))
                &&& final(self).spec_data() == data@
                &&& final(self).spec_position() == 0
                &&& listed_streams(
                    old(self).spec_streams(),
                    final(self).spec_format(),
                    final(self).spec_streams(),
                )
            },
    {
        if data.len() == 0 {
            return Err(PlayerError::demuxer("Empty data provided"));
        }
        let format = match self.detect_format(data.as_slice()) {
            Ok(format) => format,
            Err(e) => { return Err(e); },
        };
        self.data = data;
        self.format = Some(format);
        self.position = 0;
        self.initialized = true;
        self.parse_streams()
    }

    /// Detects the container format from magic bytes.
    ///
    /// Data of fewer than `MIN_HEADER_LEN` bytes is refused as an invalid
    /// format. An unknown container is no error.
    pub fn detect_format(&self, data: &[u8]) -> (r: Result<ContainerFormat, PlayerError>)
        ensures
            data@.len() < MIN_HEADER_LEN ==> (r matches Err(e) && e is InvalidFormat && e.message()
                == "Data too short to detect format"@),
            data@.len() >= MIN_HEADER_LEN ==> r == Ok::<ContainerFormat, PlayerError>(
                container_format_of(data@),
            ),
    {
        if data.len() < MIN_HEADER_LEN {
            return Err(PlayerError::invalid_format("Data too short to detect format"));
        }
        if data[4] == 0x66 && data[5] == 0x74 && data[6] == 0x79 && data[7] == 0x70 {
            assert(data@.subrange(4, 8) =~= ftyp_tag());
            return Ok(ContainerFormat::Mp4);
        }
        if data[0] == 0x1A && data[1] == 0x45 && data[2] == 0xDF && data[3] == 0xA3 {
            assert(data@.subrange(0, 4) =~= ebml_magic());
            return Ok(ContainerFormat::Mkv);
        }
        Ok(ContainerFormat::Unknown)
    }

    /// Parses stream information from the container.
    ///
    /// Lists one video stream of unknown codec for a recognised container and
    /// nothing otherwise.
    pub fn parse_streams(&mut self) -> (r: Result<(), PlayerError>)
        ensures
            r is Ok,
            listed_streams(
                old(self).spec_streams(),
                old(self).spec_format(),
                final(self).spec_streams(),
            ),
            final(self).spec_format() == old(self).spec_format(),
            final(self).spec_is_initialized() == old(self).spec_is_initialized(),
            final(self).spec_data() == old(self).spec_data(),
            final(self).spec_position() == old(self).spec_position(),
    {
        match self.format {
            Some(ContainerFormat::Mp4) | Some(ContainerFormat::Mkv) | Some(
                ContainerFormat::WebM,
            ) => {
                self.streams.push(
                    StreamInfo {
                        index: 0,
                        stream_type: StreamType::Video,
                        codec: "unknown".to_owned(),
                        duration_ms: None,
                    },
                );
                assert(self.streams@.drop_last() == old(self).streams@);
            },
            _ => {},
        }
        Ok(())
    }

    /// Returns the detected container format.
    pub fn format(&self) -> (format: Option<ContainerFormat>)
        ensures
            format == self.spec_format(),
    {
        self.format
    }

    /// Returns information about all streams in the container.
    pub fn streams(&self) -> (streams: &[StreamInfo])
        ensures
            streams@ == self.spec_streams(),
    {
        self.streams.as_slice()
    }

    /// Returns whether the demuxer has been initialized.
    pub fn is_initialized(&self) -> (initialized: bool)
        ensures
            initialized == self.spec_is_initialized(),
    {
        self.initialized
    }

    /// Reads the next packet from the container.
    ///
    /// A demuxer that is not initialised refuses with "Demuxer not
    /// initialized". An initialised one is at the end of its container: it
    /// gives `Ok(None)`. The demuxer itself does not change.
    pub fn read_packet(&mut self) -> (r: Result<Option<Packet>, PlayerError>)
        ensures
            *final(self) == *old(self),
            !old(self).spec_is_initialized() ==> (r matches Err(e) && e is Demuxer && e.message()
                == "Demuxer not initialized"@),
            old(self).spec_is_initialized() ==> r matches Ok(None),
    {
        if !self.initialized {
            return Err(PlayerError::demuxer("Demuxer not initialized"));
        }
        Ok(None)
    }

    /// Seeks to a position in the container.
    ///
    /// A demuxer that is not initialised refuses with "Demuxer not
    /// initialized". An initialised one accepts every timestamp. The demuxer
    /// itself does not change.
    pub fn seek(&mut self, timestamp_ms: u64) -> (r: Result<(), PlayerError>)
        ensures
            *final(self) == *old(self),
            !old(self).spec_is_initialized() ==> (r matches Err(e) && e is Demuxer && e.message()
                == "Demuxer not initialized"@),
            old(self).spec_is_initialized() ==> r is Ok,
    {
        if !self.initialized {
            return Err(PlayerError::demuxer("Demuxer not initialized"));
        }
        let _ = timestamp_ms;
        Ok(())
    }
}

} // verus!

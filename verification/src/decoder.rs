//! Codec sessions: per elementary stream, packets in and frames out.
//!
//! A session must be initialised for a codec before it decodes or flushes.
//! No codec backend is attached: an initialised session answers each packet
//! with one blank frame of fixed size that carries the packet's timestamp.

use crate::error::PlayerError;
use vstd::prelude::*;

verus! {

/// Supported video codecs.
#[derive(Debug, Clone, Copy, PartialEq, Eq, Structural)]
pub enum VideoCodec {
    /// H.264 / AVC.
    H264,
    /// H.265 / HEVC.
    H265,
    /// VP8.
    Vp8,
    /// VP9.
    Vp9,
    /// AV1.
    Av1,
}

/// Supported audio codecs.
#[derive(Debug, Clone, Copy, PartialEq, Eq, Structural)]
pub enum AudioCodec {
    /// AAC.
    Aac,
    /// MP3.
    Mp3,
    /// Opus.
    Opus,
    /// Vorbis.
    Vorbis,
}

/// Pixel format for video frames.
#[derive(Debug, Clone, Copy, PartialEq, Eq, Structural)]
pub enum PixelFormat {
    /// YUV420 planar.
    Yuv420p,
    /// RGBA.
    Rgba,
    /// RGB.
    Rgb,
}

/// Sample format for audio frames.
#[derive(Debug, Clone, Copy, PartialEq, Eq, Structural)]
pub enum SampleFormat {
    /// 16-bit signed integer.
    S16,
    /// 32-bit float.
    F32,
}

/// A decoded video frame.
#[derive(Debug, Clone)]
pub struct VideoFrame {
    /// Frame width in pixels.
    pub width: u32,
    /// Frame height in pixels.
    pub height: u32,
    /// Presentation timestamp in milliseconds.
    pub pts_ms: u64,
    /// Pixel format.
    pub format: PixelFormat,
    /// Raw pixel data.
    pub data: Vec<u8>,
}

/// A decoded audio frame.
#[derive(Debug, Clone)]
pub struct AudioFrame {
    /// Number of audio channels.
    pub channels: u8,
    /// Sample rate in Hz.
    pub sample_rate: u32,
    /// Presentation timestamp in milliseconds.
    pub pts_ms: u64,
    /// Sample format.
    pub format: SampleFormat,
    /// Raw audio samples.
    pub data: Vec<u8>,
}

/// Configuration for the decoder.
#[derive(Debug, Clone)]
pub struct DecoderConfig {
    /// Whether to use hardware acceleration if available.
    pub hardware_acceleration: bool,
    /// Number of decode threads (0 = auto).
    pub threads: u32,
}

impl Default for DecoderConfig {
    /// Hardware acceleration on, and the number of threads chosen automatically.
    fn default() -> (config: DecoderConfig)
        ensures
            config.hardware_acceleration,
            config.threads == 0,
    {
        DecoderConfig { hardware_acceleration: true, threads: 0 }
    }
}

/// Width in pixels of the frame that a video session gives.
pub const BLANK_FRAME_WIDTH: u32 = 1920;

/// Height in pixels of the frame that a video session gives.
pub const BLANK_FRAME_HEIGHT: u32 = 1080;

/// Bytes of a blank video frame: one luma byte per pixel and two chroma
/// planes at a quarter of the resolution.
pub const BLANK_FRAME_BYTES: usize = 3110400;

/// Channels of the frame that an audio session gives.
pub const BLANK_AUDIO_CHANNELS: u8 = 2;

/// Sample rate in Hz of the frame that an audio session gives.
pub const BLANK_AUDIO_SAMPLE_RATE: u32 = 48000;

/// Bytes of a blank audio frame.
pub const BLANK_AUDIO_BYTES: usize = 4096;

/// Whether `data` is `len` zero bytes.
pub open spec fn is_zeroed(data: Seq<u8>, len: nat) -> bool {
    data == Seq::new(len, |i: int| 0u8)
}

/// Whether `frame` is the blank video frame with timestamp `pts_ms`.
pub open spec fn is_blank_video_frame(frame: VideoFrame, pts_ms: u64) -> bool {
    &&& frame.width == BLANK_FRAME_WIDTH
    &&& frame.height == BLANK_FRAME_HEIGHT
    &&& frame.pts_ms == pts_ms
    &&& frame.format == PixelFormat::Yuv420p
    &&& is_zeroed(frame.data@, BLANK_FRAME_BYTES as nat)
}

/// Whether `frame` is the blank audio frame with timestamp `pts_ms`.
pub open spec fn is_blank_audio_frame(frame: AudioFrame, pts_ms: u64) -> bool {
    &&& frame.channels == BLANK_AUDIO_CHANNELS
    &&& frame.sample_rate == BLANK_AUDIO_SAMPLE_RATE
    &&& frame.pts_ms == pts_ms
    &&& frame.format == SampleFormat::F32
    &&& is_zeroed(frame.data@, BLANK_AUDIO_BYTES as nat)
}

/// A vector of `len` zero bytes.
fn zeroed(len: usize) -> (data: Vec<u8>)
    ensures
        is_zeroed(data@, len as nat),
{
    let data = vec![0u8; len];
    assert(data@ =~= Seq::new(len as nat, |i: int| 0u8));
    data
}

/// Video decoder for decoding compressed video frames.
#[derive(Debug)]
pub struct VideoDecoder {
    /// Codec being used.
    codec: Option<VideoCodec>,
    /// Decoder configuration.
    config: DecoderConfig,
    /// Whether the decoder has been initialized.
    initialized: bool,
}

impl Default for VideoDecoder {
    /// A session with the default configuration, not initialised.
    fn default() -> (decoder: VideoDecoder)
        ensures
            !decoder.spec_is_initialized(),
            decoder.spec_codec() is None,
            decoder.spec_config().hardware_acceleration,
            decoder.spec_config().threads == 0,
    {
        VideoDecoder::new(DecoderConfig::default())
    }
}

impl VideoDecoder {
    /// Whether the session has been initialised.
    pub closed spec fn spec_is_initialized(&self) -> bool {
        self.initialized
    }

    /// The codec that the session was initialised for.
    pub closed spec fn spec_codec(&self) -> Option<VideoCodec> {
        self.codec
    }

    /// The configuration that the session was created with.
    pub closed spec fn spec_config(&self) -> DecoderConfig {
        self.config
    }

    /// Creates a new video decoder with the given configuration.
    pub fn new(config: DecoderConfig) -> (decoder: VideoDecoder)
        ensures
            !decoder.spec_is_initialized(),
            decoder.spec_codec() is None,
            decoder.spec_config() == config,
    {
        VideoDecoder { codec: None, config, initialized: false }
    }

    /// Initializes the decoder for a specific codec.
    ///
    /// `extra_data` is codec-specific initialization data (e.g., SPS/PPS for
    /// H.264); it is not read. Initialisation always succeeds and may be
    /// repeated.
    pub fn init(&mut self, codec: VideoCodec, extra_data: Option<&[u8]>) -> (r: Result<
        (),
        PlayerError,
    >)
        ensures
            r is Ok,
            final(self).spec_is_initialized(),
            final(self).spec_codec() == Some(codec),
            final(self).spec_config() == old(self).spec_config(),
    {
        let _ = extra_data;
        self.codec = Some(codec);
        self.initialized = true;
        Ok(())
    }

    /// Decodes a compressed video packet.
    ///
    /// `data` is the packet's payload and `pts_ms` its presentation timestamp
    /// in milliseconds. A session that is not initialised refuses with
    /// "Decoder not initialized"; an initialised one refuses an empty payload
    /// with "Empty packet data" and answers any other with the blank frame
    /// that carries `pts_ms`. The session itself does not change.
    pub fn decode(&mut self, data: &[u8], pts_ms: u64) -> (r: Result<
        Option<VideoFrame>,
        PlayerError,
    >)
        ensures
            *final(self) == *old(self),
            !old(self).spec_is_initialized() ==> (r matches Err(e) && e is Decoder && e.message()
                == "Decoder not initialized"@),
            old(self).spec_is_initialized() && data@.len() == 0 ==> (r matches Err(e)
                && e is Decoder && e.message() == "Empty packet data"@),
            old(self).spec_is_initialized() && data@.len() > 0 ==> (r matches Ok(Some(frame))
                && is_blank_video_frame(frame, pts_ms)),
    {
        if !self.initialized {
            return Err(PlayerError::decoder("Decoder not initialized"));
        }
        if data.len() == 0 {
            return Err(PlayerError::decoder("Empty packet data"));
        }
        Ok(
            Some(
                VideoFrame {
                    width: BLANK_FRAME_WIDTH,
                    height: BLANK_FRAME_HEIGHT,
                    pts_ms,
                    format: PixelFormat::Yuv420p,
                    data: zeroed(BLANK_FRAME_BYTES),
                },
            ),
        )
    }

    /// Flushes any buffered frames from the decoder.
    ///
    /// A session that is not initialised refuses with "Decoder not
    /// initialized". An initialised one holds no frames back, so it gives
    /// none. The session itself does not change.
    pub fn flush(&mut self) -> (r: Result<Vec<VideoFrame>, PlayerError>)
        ensures
            *final(self) == *old(self),
            !old(self).spec_is_initialized() ==> (r matches Err(e) && e is Decoder && e.message()
                == "Decoder not initialized"@),
            old(self).spec_is_initialized() ==> (r matches Ok(frames) && frames@.len() == 0),
    {
        if !self.initialized {
            return Err(PlayerError::decoder("Decoder not initialized"));
        }
        Ok(Vec::new())
    }

    /// Returns the current codec.
    pub fn codec(&self) -> (codec: Option<VideoCodec>)
        ensures
            codec == self.spec_codec(),
    {
        self.codec
    }

    /// Returns whether the decoder is initialized.
    pub fn is_initialized(&self) -> (initialized: bool)
        ensures
            initialized == self.spec_is_initialized(),
    {
        self.initialized
    }

    /// Returns the decoder configuration.
    pub fn config(&self) -> (config: &DecoderConfig)
        ensures
            *config == self.spec_config(),
    {
        &self.config
    }
}

/// Audio decoder for decoding compressed audio frames.
#[derive(Debug)]
pub struct AudioDecoder {
    /// Codec being used.
    codec: Option<AudioCodec>,
    /// Decoder configuration.
    config: DecoderConfig,
    /// Whether the decoder has been initialized.
    initialized: bool,
}

impl Default for AudioDecoder {
    /// A session with the default configuration, not initialised.
    fn default() -> (decoder: AudioDecoder)
        ensures
            !decoder.spec_is_initialized(),
            decoder.spec_codec() is None,
            decoder.spec_config().hardware_acceleration,
            decoder.spec_config().threads == 0,
    {
        AudioDecoder::new(DecoderConfig::default())
    }
}

impl AudioDecoder {
    /// Whether the session has been initialised.
    pub closed spec fn spec_is_initialized(&self) -> bool {
        self.initialized
    }

    /// The codec that the session was initialised for.
    pub closed spec fn spec_codec(&self) -> Option<AudioCodec> {
        self.codec
    }

    /// The configuration that the session was created with.
    pub closed spec fn spec_config(&self) -> DecoderConfig {
        self.config
    }

    /// Creates a new audio decoder with the given configuration.
    pub fn new(config: DecoderConfig) -> (decoder: AudioDecoder)
        ensures
            !decoder.spec_is_initialized(),
            decoder.spec_codec() is None,
            decoder.spec_config() == config,
    {
        AudioDecoder { codec: None, config, initialized: false }
    }

    /// Initializes the decoder for a specific codec.
    ///
    /// `extra_data` is codec-specific initialization data; it is not read.
    /// Initialisation always succeeds and may be repeated.
    pub fn init(&mut self, codec: AudioCodec, extra_data: Option<&[u8]>) -> (r: Result<
        (),
        PlayerError,
    >)
        ensures
            r is Ok,
            final(self).spec_is_initialized(),
            final(self).spec_codec() == Some(codec),
            final(self).spec_config() == old(self).spec_config(),
    {
        let _ = extra_data;
        self.codec = Some(codec);
        self.initialized = true;
        Ok(())
    }

    /// Decodes a compressed audio packet.
    ///
    /// A session that is not initialised refuses with "Decoder not
    /// initialized"; an initialised one refuses an empty payload with "Empty
    /// packet data" and answers any other with the blank frame that carries
    /// `pts_ms`. The session itself does not change.
    pub fn decode(&mut self, data: &[u8], pts_ms: u64) -> (r: Result<
        Option<AudioFrame>,
        PlayerError,
    >)
        ensures
            *final(self) == *old(self),
            !old(self).spec_is_initialized() ==> (r matches Err(e) && e is Decoder && e.message()
                == "Decoder not initialized"@),
            old(self).spec_is_initialized() && data@.len() == 0 ==> (r matches Err(e)
                && e is Decoder && e.message() == "Empty packet data"@),
            old(self).spec_is_initialized() && data@.len() > 0 ==> (r matches Ok(Some(frame))
                && is_blank_audio_frame(frame, pts_ms)),
    {
        if !self.initialized {
            return Err(PlayerError::decoder("Decoder not initialized"));
        }
        if data.len() == 0 {
            return Err(PlayerError::decoder("Empty packet data"));
        }
        Ok(
            Some(
                AudioFrame {
                    channels: BLANK_AUDIO_CHANNELS,
                    sample_rate: BLANK_AUDIO_SAMPLE_RATE,
                    pts_ms,
                    format: SampleFormat::F32,
                    data: zeroed(BLANK_AUDIO_BYTES),
                },
            ),
        )
    }

    /// Flushes any buffered frames from the decoder.
    ///
    /// A session that is not initialised refuses with "Decoder not
    /// initialized". An initialised one holds no frames back, so it gives
    /// none. The session itself does not change.
    pub fn flush(&mut self) -> (r: Result<Vec<AudioFrame>, PlayerError>)
        ensures
            *final(self) == *old(self),
            !old(self).spec_is_initialized() ==> (r matches Err(e) && e is Decoder && e.message()
                == "Decoder not initialized"@),
            old(self).spec_is_initialized() ==> (r matches Ok(frames) && frames@.len() == 0),
    {
        if !self.initialized {
            return Err(PlayerError::decoder("Decoder not initialized"));
        }
        Ok(Vec::new())
    }

    /// Returns the current codec.
    pub fn codec(&self) -> (codec: Option<AudioCodec>)
        ensures
            codec == self.spec_codec(),
    {
        self.codec
    }

    /// Returns whether the decoder is initialized.
    pub fn is_initialized(&self) -> (initialized: bool)
        ensures
            initialized == self.spec_is_initialized(),
    {
        self.initialized
    }

    /// Returns the decoder configuration.
    pub fn config(&self) -> (config: &DecoderConfig)
        ensures
            *config == self.spec_config(),
    {
        &self.config
    }
}

} // verus!

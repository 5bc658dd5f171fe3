use player_core::decoder::{
    AudioCodec, AudioDecoder, DecoderConfig, PixelFormat, SampleFormat, VideoCodec, VideoDecoder,
};

#[test]
fn test_video_decoder_new() {
    let decoder = VideoDecoder::default();
    assert!(!decoder.is_initialized());
    assert!(decoder.codec().is_none());
}

#[test]
fn test_video_decoder_init() {
    let mut decoder = VideoDecoder::default();
    let result = decoder.init(VideoCodec::H264, None);
    assert!(result.is_ok());
    assert!(decoder.is_initialized());
    assert_eq!(decoder.codec(), Some(VideoCodec::H264));
}

#[test]
fn test_video_decoder_decode_without_init() {
    let mut decoder = VideoDecoder::default();
    let result = decoder.decode(&[1, 2, 3], 0);
    assert!(result.is_err());
    assert!(result
        .unwrap_err()
        .to_string()
        .contains("not initialized"));
}

#[test]
fn test_video_decoder_decode_empty_data() {
    let mut decoder = VideoDecoder::default();
    decoder.init(VideoCodec::H264, None).unwrap();
    let result = decoder.decode(&[], 0);
    assert!(result.is_err());
    assert!(result.unwrap_err().to_string().contains("Empty packet"));
}

#[test]
fn test_video_decoder_decode_success() {
    let mut decoder = VideoDecoder::default();
    decoder.init(VideoCodec::H264, None).unwrap();
    let result = decoder.decode(&[0, 0, 0, 1, 0x67], 1000);
    assert!(result.is_ok());
    let frame = result.unwrap().unwrap();
    assert_eq!(frame.pts_ms, 1000);
    assert_eq!(frame.width, 1920);
    assert_eq!(frame.height, 1080);
}

#[test]
fn test_audio_decoder_new() {
    let decoder = AudioDecoder::default();
    assert!(!decoder.is_initialized());
    assert!(decoder.codec().is_none());
}

#[test]
fn test_audio_decoder_init() {
    let mut decoder = AudioDecoder::default();
    let result = decoder.init(AudioCodec::Aac, None);
    assert!(result.is_ok());
    assert!(decoder.is_initialized());
    assert_eq!(decoder.codec(), Some(AudioCodec::Aac));
}

#[test]
fn test_audio_decoder_decode_success() {
    let mut decoder = AudioDecoder::default();
    decoder.init(AudioCodec::Opus, None).unwrap();
    let result = decoder.decode(&[1, 2, 3, 4], 500);
    assert!(result.is_ok());
    let frame = result.unwrap().unwrap();
    assert_eq!(frame.pts_ms, 500);
    assert_eq!(frame.channels, 2);
    assert_eq!(frame.sample_rate, 48000);
}

#[test]
fn test_decoder_config_default() {
    let config = DecoderConfig::default();
    assert!(config.hardware_acceleration);
    assert_eq!(config.threads, 0);
}

#[test]
fn test_video_decoder_blank_frame_contents() {
    let mut decoder = VideoDecoder::default();
    decoder.init(VideoCodec::Vp9, Some(&[1, 2, 3])).unwrap();
    let frame = decoder.decode(&[9], u64::MAX).unwrap().unwrap();
    assert_eq!(frame.pts_ms, u64::MAX);
    assert_eq!(frame.format, PixelFormat::Yuv420p);
    assert_eq!(frame.data.len(), 1920 * 1080 * 3 / 2);
    assert_eq!(frame.data.len(), 3110400);
    assert!(frame.data.iter().all(|b| *b == 0));
    assert!(decoder.is_initialized());
    assert_eq!(decoder.codec(), Some(VideoCodec::Vp9));
}

#[test]
fn test_audio_decoder_blank_frame_contents() {
    let mut decoder = AudioDecoder::default();
    decoder.init(AudioCodec::Vorbis, None).unwrap();
    let frame = decoder.decode(&[7], 0).unwrap().unwrap();
    assert_eq!(frame.pts_ms, 0);
    assert_eq!(frame.format, SampleFormat::F32);
    assert_eq!(frame.data.len(), 4096);
    assert!(frame.data.iter().all(|b| *b == 0));
}

#[test]
fn test_audio_decoder_decode_without_init() {
    let mut decoder = AudioDecoder::default();
    let error = decoder.decode(&[1, 2, 3], 0).unwrap_err();
    assert_eq!(error.to_string(), "Decoder error: Decoder not initialized");
}

#[test]
fn test_audio_decoder_decode_empty_data() {
    let mut decoder = AudioDecoder::default();
    decoder.init(AudioCodec::Mp3, None).unwrap();
    let error = decoder.decode(&[], 10).unwrap_err();
    assert_eq!(error.to_string(), "Decoder error: Empty packet data");
}

#[test]
fn test_decode_checks_initialisation_before_payload() {
    let mut decoder = VideoDecoder::default();
    let error = decoder.decode(&[], 0).unwrap_err();
    assert_eq!(error.to_string(), "Decoder error: Decoder not initialized");
}

#[test]
fn test_flush_without_init_is_an_error() {
    let mut video = VideoDecoder::default();
    let error = video.flush().unwrap_err();
    assert_eq!(error.to_string(), "Decoder error: Decoder not initialized");
    let mut audio = AudioDecoder::default();
    let error = audio.flush().unwrap_err();
    assert_eq!(error.to_string(), "Decoder error: Decoder not initialized");
}

#[test]
fn test_flush_after_init_gives_no_frames() {
    let mut video = VideoDecoder::default();
    video.init(VideoCodec::Av1, None).unwrap();
    video.decode(&[1], 40).unwrap();
    assert!(video.flush().unwrap().is_empty());
    let mut audio = AudioDecoder::default();
    audio.init(AudioCodec::Aac, None).unwrap();
    assert!(audio.flush().unwrap().is_empty());
}

#[test]
fn test_decoder_keeps_its_configuration() {
    let config = DecoderConfig { hardware_acceleration: false, threads: 4 };
    let mut decoder = VideoDecoder::new(config.clone());
    assert!(!decoder.config().hardware_acceleration);
    assert_eq!(decoder.config().threads, 4);
    decoder.init(VideoCodec::H265, None).unwrap();
    assert_eq!(decoder.config().threads, 4);
    let audio = AudioDecoder::new(config);
    assert!(!audio.config().hardware_acceleration);
    assert_eq!(audio.config().threads, 4);
    assert!(VideoDecoder::default().config().hardware_acceleration);
    assert_eq!(AudioDecoder::default().config().threads, 0);
}

#[test]
fn test_decoder_init_may_be_repeated() {
    let mut decoder = VideoDecoder::default();
    decoder.init(VideoCodec::Vp8, None).unwrap();
    decoder.init(VideoCodec::H264, None).unwrap();
    assert_eq!(decoder.codec(), Some(VideoCodec::H264));
    assert!(decoder.is_initialized());
}

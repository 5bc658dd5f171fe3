use player_core::subtitle::{
    SubtitleCue, SubtitleFormat, SubtitleParser, SubtitleStyle, SubtitleTrack,
};

fn cue(id: &str, start_ms: u64, end_ms: u64) -> SubtitleCue {
    SubtitleCue {
        id: id.to_string(),
        start_ms,
        end_ms,
        text: format!("text {}", id),
        style: None,
    }
}

fn ids_at(track: &SubtitleTrack, timestamp_ms: u64) -> Vec<String> {
    track.cues_at(timestamp_ms).iter().map(|c| c.id.clone()).collect()
}

#[test]
fn test_subtitle_track_new() {
    let track = SubtitleTrack::new(SubtitleFormat::Srt);
    assert_eq!(track.format, SubtitleFormat::Srt);
    assert!(track.cues.is_empty());
    assert!(track.language.is_none());
}

#[test]
fn test_subtitle_track_cues_at() {
    let mut track = SubtitleTrack::new(SubtitleFormat::Srt);

    track.add_cue(SubtitleCue {
        id: "1".to_string(),
        start_ms: 1000,
        end_ms: 3000,
        text: "First subtitle".to_string(),
        style: None,
    });

    track.add_cue(SubtitleCue {
        id: "2".to_string(),
        start_ms: 2500,
        end_ms: 5000,
        text: "Second subtitle".to_string(),
        style: None,
    });

    // Before first subtitle
    assert!(track.cues_at(500).is_empty());

    // Only first subtitle
    assert_eq!(track.cues_at(1500).len(), 1);
    assert_eq!(track.cues_at(1500)[0].id, "1");

    // Both subtitles (overlapping)
    assert_eq!(track.cues_at(2700).len(), 2);

    // Only second subtitle
    assert_eq!(track.cues_at(4000).len(), 1);
    assert_eq!(track.cues_at(4000)[0].id, "2");

    // After all subtitles
    assert!(track.cues_at(6000).is_empty());
}

#[test]
fn test_parser_empty_data() {
    let parser = SubtitleParser::new();
    let result = parser.parse("", None);
    assert!(result.is_err());
    assert!(result.unwrap_err().to_string().contains("Empty"));
}

#[test]
fn test_parser_detect_format_srt() {
    let parser = SubtitleParser::new();
    let srt_data = "1\n00:00:01,000 --> 00:00:04,000\nHello";
    assert_eq!(parser.detect_format(srt_data), SubtitleFormat::Srt);
}

#[test]
fn test_parser_detect_format_vtt() {
    let parser = SubtitleParser::new();
    let vtt_data = "WEBVTT\n\n00:00:01.000 --> 00:00:04.000\nHello";
    assert_eq!(parser.detect_format(vtt_data), SubtitleFormat::Vtt);
}

#[test]
fn test_parser_detect_format_ass() {
    let parser = SubtitleParser::new();
    let ass_data = "[Script Info]\nTitle: Test";
    assert_eq!(parser.detect_format(ass_data), SubtitleFormat::Ass);
}

#[test]
fn test_parse_srt_basic() {
    let parser = SubtitleParser::new();
    let srt_data = r#"1
00:00:01,000 --> 00:00:04,000
Hello, World!

2
00:00:05,500 --> 00:00:08,000
Second subtitle
with multiple lines
"#;

    let result = parser.parse(srt_data, Some(SubtitleFormat::Srt));
    assert!(result.is_ok());

    let track = result.unwrap();
    assert_eq!(track.format, SubtitleFormat::Srt);
    assert_eq!(track.cue_count(), 2);

    assert_eq!(track.cues[0].start_ms, 1000);
    assert_eq!(track.cues[0].end_ms, 4000);
    assert_eq!(track.cues[0].text, "Hello, World!");

    assert_eq!(track.cues[1].start_ms, 5500);
    assert_eq!(track.cues[1].end_ms, 8000);
    assert!(track.cues[1].text.contains("multiple lines"));
}

#[test]
fn test_parse_srt_timestamp() {
    let parser = SubtitleParser::new();

    // Standard format
    assert_eq!(parser.parse_srt_timestamp("00:00:01,000"), Some(1000));
    assert_eq!(parser.parse_srt_timestamp("00:01:30,500"), Some(90500));
    assert_eq!(parser.parse_srt_timestamp("01:30:45,123"), Some(5445123));

    // With dot instead of comma
    assert_eq!(parser.parse_srt_timestamp("00:00:01.000"), Some(1000));

    // Invalid formats
    assert!(parser.parse_srt_timestamp("invalid").is_none());
    assert!(parser.parse_srt_timestamp("00:00").is_none());
}

#[test]
fn test_subtitle_style_default() {
    let style = SubtitleStyle::default();
    assert!(style.font_family.is_none());
    assert!(style.font_size.is_none());
    assert!(!style.bold);
    assert!(!style.italic);
}

#[test]
fn test_subtitle_style_default_sets_nothing() {
    let style = SubtitleStyle::default();
    assert!(style.color.is_none());
    assert!(style.background_color.is_none());
    assert!(!style.underline);
}

#[test]
fn test_cue_interval_boundaries() {
    let mut track = SubtitleTrack::new(SubtitleFormat::Srt);
    track.add_cue(cue("1", 1000, 3000));
    assert!(track.cues_at(999).is_empty());
    assert_eq!(ids_at(&track, 1000), vec!["1"]);
    assert_eq!(ids_at(&track, 2999), vec!["1"]);
    assert!(track.cues_at(3000).is_empty());
    assert!(track.cues_at(0).is_empty());
    assert!(track.cues_at(u64::MAX).is_empty());
}

#[test]
fn test_cue_overlap() {
    let mut track = SubtitleTrack::new(SubtitleFormat::Srt);
    track.add_cue(cue("a", 1000, 3000));
    track.add_cue(cue("b", 2500, 5000));
    assert_eq!(ids_at(&track, 2700), vec!["a", "b"]);
    assert_eq!(ids_at(&track, 1500), vec!["a"]);
    assert_eq!(ids_at(&track, 4000), vec!["b"]);
    assert_eq!(ids_at(&track, 2500), vec!["a", "b"]);
    assert_eq!(ids_at(&track, 3000), vec!["b"]);
}

#[test]
fn test_cues_come_in_insertion_order() {
    let mut track = SubtitleTrack::new(SubtitleFormat::Srt);
    track.add_cue(cue("late", 5000, 9000));
    track.add_cue(cue("x", 1000, 9000));
    track.add_cue(cue("y", 1000, 9000));
    track.add_cue(cue("early", 0, 9000));
    track.add_cue(cue("gone", 0, 10));
    assert_eq!(ids_at(&track, 6000), vec!["late", "x", "y", "early"]);
    assert_eq!(ids_at(&track, 6000), ids_at(&track, 6000));
    assert_eq!(ids_at(&track, 1000), vec!["x", "y", "early"]);
    assert_eq!(ids_at(&track, 5), vec!["early", "gone"]);
    assert_eq!(track.cue_count(), 5);
}

#[test]
fn test_cue_visible_to_the_last_millisecond() {
    let mut track = SubtitleTrack::new(SubtitleFormat::Vtt);
    track.add_cue(cue("1", 0, u64::MAX));
    assert_eq!(ids_at(&track, 0), vec!["1"]);
    assert_eq!(ids_at(&track, u64::MAX - 1), vec!["1"]);
    assert!(track.cues_at(u64::MAX).is_empty());
    assert_eq!(track.format, SubtitleFormat::Vtt);
}

#[test]
fn test_add_cue_keeps_the_cue_and_the_track() {
    let mut track = SubtitleTrack::new(SubtitleFormat::Ass);
    track.language = Some("ko".to_string());
    track.title = Some("main".to_string());
    let styled = SubtitleCue {
        id: "s".to_string(),
        start_ms: 1,
        end_ms: 2,
        text: "styled".to_string(),
        style: Some(SubtitleStyle { bold: true, font_size: Some(12), ..SubtitleStyle::default() }),
    };
    track.add_cue(styled);
    assert_eq!(track.cue_count(), 1);
    assert_eq!(track.format, SubtitleFormat::Ass);
    assert_eq!(track.language.as_deref(), Some("ko"));
    assert_eq!(track.title.as_deref(), Some("main"));
    let found = track.cues_at(1);
    assert_eq!(found.len(), 1);
    assert_eq!(found[0].text, "styled");
    let style = found[0].style.as_ref().unwrap();
    assert!(style.bold);
    assert_eq!(style.font_size, Some(12));
}

#[test]
fn test_timestamp_formula() {
    let parser = SubtitleParser::new();
    assert_eq!(parser.parse_srt_timestamp("00:00:00,000"), Some(0));
    assert_eq!(parser.parse_srt_timestamp("00:00:00,001"), Some(1));
    assert_eq!(parser.parse_srt_timestamp("00:00:01,000"), Some(1_000));
    assert_eq!(parser.parse_srt_timestamp("00:01:00,000"), Some(60_000));
    assert_eq!(parser.parse_srt_timestamp("01:00:00,000"), Some(3_600_000));
    assert_eq!(parser.parse_srt_timestamp("99:59:59,999"), Some(359_999_999));
    assert_eq!(parser.parse_srt_timestamp("01:30:45.123"), Some(5_445_123));
    assert_eq!(parser.parse_srt_timestamp("0:0:0"), Some(0));
    assert_eq!(parser.parse_srt_timestamp("1:2:3"), Some(3_723_000));
    assert_eq!(parser.parse_srt_timestamp("00:00:90,000"), Some(90_000));
    assert_eq!(parser.parse_srt_timestamp("00:90:00,000"), Some(5_400_000));
}

#[test]
fn test_timestamp_fraction_is_a_number_of_milliseconds() {
    let parser = SubtitleParser::new();
    assert_eq!(parser.parse_srt_timestamp("00:00:01,5"), Some(1_005));
    assert_eq!(parser.parse_srt_timestamp("00:00:01,50"), Some(1_050));
    assert_eq!(parser.parse_srt_timestamp("00:00:01,1500"), Some(2_500));
    assert_eq!(parser.parse_srt_timestamp("00:00:01.5.7"), Some(1_005));
    assert_eq!(parser.parse_srt_timestamp("00:00:01,5,x"), Some(1_005));
    assert_eq!(parser.parse_srt_timestamp("+1:+2:+3,+4"), Some(3_723_004));
}

#[test]
fn test_timestamp_rejected() {
    let parser = SubtitleParser::new();
    for text in [
        "",
        "invalid",
        "00:00",
        "00:00:00:00",
        "::",
        "00:00:",
        ":00:00",
        "00::00",
        "00:00:01,",
        "00:00:,5",
        "00:00:.",
        "aa:00:00,000",
        "00:bb:00,000",
        "00:00:cc,000",
        "00:00:00,ddd",
        "-1:00:00,000",
        " 00:00:01,000",
        "00:00:01,000 ",
        "00: 00:01,000",
        "00,00:00",
        "00.5:00:00",
    ] {
        assert_eq!(parser.parse_srt_timestamp(text), None, "{:?}", text);
    }
}

#[test]
fn test_timestamp_beyond_64_bits_is_rejected() {
    let parser = SubtitleParser::new();
    assert_eq!(parser.parse_srt_timestamp("18446744073709551616:00:00"), None);
    assert_eq!(parser.parse_srt_timestamp("5124095576031:00:00"), None);
    assert_eq!(parser.parse_srt_timestamp("5124095576030:00:00"), Some(5124095576030 * 3_600_000));
    assert_eq!(
        parser.parse_srt_timestamp("5124095576030:25:51,615"),
        Some(u64::MAX),
    );
    assert_eq!(parser.parse_srt_timestamp("5124095576030:25:51,616"), None);
    assert_eq!(parser.parse_srt_timestamp("0:0:0,18446744073709551615"), Some(u64::MAX));
    assert_eq!(parser.parse_srt_timestamp("0:0:1,18446744073709551615"), None);
    assert_eq!(parser.parse_srt_timestamp("0:0:18446744073709551615"), None);
}

#[test]
fn test_timing_line() {
    let parser = SubtitleParser::new();
    assert_eq!(
        parser.parse_srt_timing("00:00:01,000 --> 00:00:04,000"),
        Some((1000, 4000)),
    );
    assert_eq!(parser.parse_srt_timing("00:00:01.000-->00:00:04.000"), Some((1000, 4000)));
    assert_eq!(
        parser.parse_srt_timing(" \t00:00:01,000   -->\t 00:00:04,000 \r"),
        Some((1000, 4000)),
    );
    assert_eq!(parser.parse_srt_timing("00:00:04,000 --> 00:00:01,000"), Some((4000, 1000)));
    assert_eq!(parser.parse_srt_timing("00:00:01,000 -> 00:00:04,000"), None);
    assert_eq!(parser.parse_srt_timing("00:00:01,000"), None);
    assert_eq!(parser.parse_srt_timing(""), None);
    assert_eq!(parser.parse_srt_timing("-->"), None);
    assert_eq!(parser.parse_srt_timing("00:00:01,000 --> "), None);
    assert_eq!(parser.parse_srt_timing(" --> 00:00:04,000"), None);
    assert_eq!(
        parser.parse_srt_timing("00:00:01,000 --> 00:00:04,000 --> 00:00:05,000"),
        None,
    );
    assert_eq!(parser.parse_srt_timing("00:00:01,000 --> 00:00:04,000 X1:0"), None);
    assert_eq!(parser.parse_srt_timing("00:00:01,000 ---> 00:00:04,000"), None);
}

#[test]
fn test_parse_srt_cue_fields() {
    let parser = SubtitleParser::new();
    let data = "1\n00:00:01,000 --> 00:00:04,000\nHello, World!\n\n2\n00:00:05,500 --> 00:00:08,000\nSecond subtitle\nwith multiple lines\n";
    let track = parser.parse_srt(data).unwrap();
    assert_eq!(track.format, SubtitleFormat::Srt);
    assert!(track.language.is_none());
    assert!(track.title.is_none());
    assert_eq!(track.cues.len(), 2);
    assert_eq!(track.cues[0].id, "1");
    assert_eq!(track.cues[0].text, "Hello, World!");
    assert!(track.cues[0].style.is_none());
    assert_eq!(track.cues[1].id, "2");
    assert_eq!(track.cues[1].start_ms, 5500);
    assert_eq!(track.cues[1].end_ms, 8000);
    assert_eq!(track.cues[1].text, "Second subtitle\nwith multiple lines");
    assert!(track.cues[1].style.is_none());
}

#[test]
fn test_parse_srt_numbers_blocks_by_their_place() {
    let parser = SubtitleParser::new();
    let data = "7\n00:00:01,000 --> 00:00:02,000\nfirst\n\nnot a cue\n\n9\nbad timing\ntext\n\n \t \n\n1\n00:00:03,000 --> 00:00:04,000\nfourth";
    let track = parser.parse_srt(data).unwrap();
    assert_eq!(track.cue_count(), 2);
    assert_eq!(track.cues[0].id, "1");
    assert_eq!(track.cues[0].text, "first");
    assert_eq!(track.cues[1].id, "4");
    assert_eq!(track.cues[1].text, "fourth");
    assert_eq!(track.cues[1].start_ms, 3000);
}

#[test]
fn test_parse_srt_leaves_out_an_empty_time_span() {
    let parser = SubtitleParser::new();
    let data = "1\n00:00:04,000 --> 00:00:01,000\nbackwards\n\n2\n00:00:02,000 --> 00:00:02,000\nno time\n\n3\n00:00:02,000 --> 00:00:02,001\nshort";
    let track = parser.parse_srt(data).unwrap();
    assert_eq!(track.cue_count(), 1);
    assert_eq!(track.cues[0].id, "3");
    assert_eq!(track.cues[0].start_ms, 2000);
    assert_eq!(track.cues[0].end_ms, 2001);
    for cue in &track.cues {
        assert!(cue.start_ms < cue.end_ms);
    }
}

#[test]
fn test_parse_srt_with_carriage_returns() {
    let parser = SubtitleParser::new();
    let data = "1\r\n00:00:01,000 --> 00:00:04,000\r\nHello\r\nthere\r\n";
    let track = parser.parse_srt(data).unwrap();
    assert_eq!(track.cue_count(), 1);
    assert_eq!(track.cues[0].start_ms, 1000);
    assert_eq!(track.cues[0].end_ms, 4000);
    assert_eq!(track.cues[0].text, "Hello\nthere");
    let two = "1\r\n00:00:01,000 --> 00:00:04,000\r\nHello\r\n\r\n2\r\n00:00:05,000 --> 00:00:06,000\r\nWorld\r\n";
    let track = parser.parse_srt(two).unwrap();
    assert_eq!(track.cue_count(), 1);
    assert_eq!(
        track.cues[0].text,
        "Hello\n\n2\n00:00:05,000 --> 00:00:06,000\nWorld",
    );
}

#[test]
fn test_parse_srt_blocks_with_fewer_than_three_lines() {
    let parser = SubtitleParser::new();
    assert_eq!(parser.parse_srt("just text").unwrap().cue_count(), 0);
    assert_eq!(
        parser.parse_srt("1\n00:00:01,000 --> 00:00:04,000").unwrap().cue_count(),
        0,
    );
    assert_eq!(
        parser.parse_srt("1\n00:00:01,000 --> 00:00:04,000\n").unwrap().cue_count(),
        0,
    );
    let track = parser.parse_srt("1\n00:00:01,000 --> 00:00:04,000\n \n").unwrap();
    assert_eq!(track.cue_count(), 1);
    assert_eq!(track.cues[0].text, " ");
    assert_eq!(parser.parse_srt("").unwrap().cue_count(), 0);
    assert_eq!(parser.parse_srt("\n\n\n\n").unwrap().cue_count(), 0);
}

#[test]
fn test_parse_srt_block_that_begins_with_an_empty_line() {
    let parser = SubtitleParser::new();
    let data = "\n\n\n1\n00:00:01,000 --> 00:00:04,000\nline\n\n\n\n2\n00:00:05,000 --> 00:00:06,000\nnext\n\n";
    let track = parser.parse_srt(data).unwrap();
    assert_eq!(track.cue_count(), 1);
    assert_eq!(track.cues[0].id, "2");
    assert_eq!(track.cues[0].start_ms, 5000);
    assert_eq!(track.cues[0].text, "next");
}

#[test]
fn test_parse_srt_many_blocks() {
    let parser = SubtitleParser::new();
    let mut data = String::new();
    for i in 0..120u64 {
        data.push_str(&format!(
            "{}\n00:00:{:02},000 --> 00:00:{:02},500\ncue {}\n\n",
            i + 1,
            i % 60,
            i % 60,
            i
        ));
    }
    let track = parser.parse(&data, None).unwrap();
    assert_eq!(track.cue_count(), 120);
    for (i, cue) in track.cues.iter().enumerate() {
        assert_eq!(cue.id, format!("{}", i + 1));
        assert_eq!(cue.start_ms, (i as u64 % 60) * 1000);
        assert_eq!(cue.end_ms, (i as u64 % 60) * 1000 + 500);
        assert_eq!(cue.text, format!("cue {}", i));
    }
    assert_eq!(track.cues_at(59_250).len(), 2);
}

#[test]
fn test_parse_detects_the_format() {
    let parser = SubtitleParser::new();
    let track = parser
        .parse("1\n00:00:01,000 --> 00:00:04,000\nHello", None)
        .unwrap();
    assert_eq!(track.format, SubtitleFormat::Srt);
    assert_eq!(track.cue_count(), 1);
}

#[test]
fn test_parse_refuses_formats_it_cannot_read() {
    let parser = SubtitleParser::new();
    let vtt = "WEBVTT\n\n00:00:01.000 --> 00:00:04.000\nHello";
    let error = parser.parse(vtt, None).unwrap_err();
    assert_eq!(error.to_string(), "Subtitle error: WebVTT subtitles are not supported");
    let ass = "[Script Info]\nTitle: Test";
    let error = parser.parse(ass, None).unwrap_err();
    assert_eq!(error.to_string(), "Subtitle error: ASS/SSA subtitles are not supported");
    let srt = "1\n00:00:01,000 --> 00:00:04,000\nHello";
    assert!(parser.parse(srt, Some(SubtitleFormat::Vtt)).is_err());
    assert!(parser.parse(srt, Some(SubtitleFormat::Ass)).is_err());
    assert!(parser.parse_vtt(vtt).is_err());
    assert!(parser.parse_ass(ass).is_err());
}

#[test]
fn test_parse_expected_format_goes_before_detection() {
    let parser = SubtitleParser::new();
    let data = "WEBVTT\n00:00:01.000 --> 00:00:04.000\nHello";
    let track = parser.parse(data, Some(SubtitleFormat::Srt)).unwrap();
    assert_eq!(track.format, SubtitleFormat::Srt);
    assert_eq!(track.cue_count(), 1);
    assert_eq!(track.cues[0].text, "Hello");
}

#[test]
fn test_parse_empty_data_error_text() {
    let parser = SubtitleParser::new();
    for format in [None, Some(SubtitleFormat::Srt), Some(SubtitleFormat::Vtt), Some(SubtitleFormat::Ass)] {
        let error = parser.parse("", format).unwrap_err();
        assert_eq!(error.to_string(), "Subtitle error: Empty subtitle data");
    }
}

#[test]
fn test_detect_format_rules() {
    let parser = SubtitleParser::default();
    assert_eq!(parser.detect_format(" \n\t WEBVTT"), SubtitleFormat::Vtt);
    assert_eq!(parser.detect_format("WEBVTT [V4+ Styles]"), SubtitleFormat::Vtt);
    assert_eq!(parser.detect_format("x WEBVTT"), SubtitleFormat::Srt);
    assert_eq!(parser.detect_format("webvtt"), SubtitleFormat::Srt);
    assert_eq!(parser.detect_format("WEBVT"), SubtitleFormat::Srt);
    assert_eq!(parser.detect_format("\u{3000}[Script Info]"), SubtitleFormat::Ass);
    assert_eq!(parser.detect_format("x [Script Info]"), SubtitleFormat::Srt);
    assert_eq!(parser.detect_format("Title: x\n[V4+ Styles]\nFormat"), SubtitleFormat::Ass);
    assert_eq!(parser.detect_format("text [V4+ Styles]"), SubtitleFormat::Ass);
    assert_eq!(parser.detect_format("[V4+ Styles"), SubtitleFormat::Srt);
    assert_eq!(parser.detect_format(""), SubtitleFormat::Srt);
    assert_eq!(parser.detect_format("   "), SubtitleFormat::Srt);
}

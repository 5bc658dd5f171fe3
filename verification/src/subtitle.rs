//! Subtitle tracks: timed cues, interval lookup and parsing.
//!
//! A track keeps its cues in insertion order and answers which of them are
//! visible at a timestamp. The parser reads the SubRip format; the grammar is
//! given by the spec functions `srt_timestamp`, `srt_timing`, `srt_block_cue`
//! and `srt_cues`.

use crate::error::PlayerError;
use crate::text::{
    chars_of, contains, decimal, has_infix, has_prefix, is_blank, join, joined, lines, lines_of,
    parse_u64, parsed_u64, replace, replaced, split, split_on, starts_with, string_of, texts,
    to_decimal, trim, trimmed,
};
use vstd::prelude::*;
use vstd::string::*;

verus! {

/// Supported subtitle formats.
#[derive(Debug, Clone, Copy, PartialEq, Eq, Structural)]
pub enum SubtitleFormat {
    /// SubRip format (.srt).
    Srt,
    /// Advanced SubStation Alpha (.ass/.ssa).
    Ass,
    /// WebVTT format (.vtt).
    Vtt,
}

/// Styling information for a subtitle.
#[derive(Debug, Clone)]
pub struct SubtitleStyle {
    /// Font family name.
    pub font_family: Option<String>,
    /// Font size in pixels.
    pub font_size: Option<u32>,
    /// Font color as CSS color string.
    pub color: Option<String>,
    /// Background color as CSS color string.
    pub background_color: Option<String>,
    /// Whether text is bold.
    pub bold: bool,
    /// Whether text is italic.
    pub italic: bool,
    /// Whether text is underlined.
    pub underline: bool,
}

/// A single subtitle cue (entry).
#[derive(Debug, Clone)]
pub struct SubtitleCue {
    /// Unique identifier for the cue.
    pub id: String,
    /// Start time in milliseconds.
    pub start_ms: u64,
    /// End time in milliseconds.
    pub end_ms: u64,
    /// Subtitle text content.
    pub text: String,
    /// Optional styling information.
    pub style: Option<SubtitleStyle>,
}

/// Parsed subtitle track.
#[derive(Debug, Clone)]
pub struct SubtitleTrack {
    /// Track format.
    pub format: SubtitleFormat,
    /// Language code (e.g., "en", "ko").
    pub language: Option<String>,
    /// Track title/label.
    pub title: Option<String>,
    /// All cues in the track.
    pub cues: Vec<SubtitleCue>,
}

/// Parser for subtitle files.
#[derive(Debug, Default)]
pub struct SubtitleParser;

/// The characters of an optional string.
pub open spec fn text_of(s: Option<String>) -> Option<Seq<char>> {
    match s {
        Some(t) => Some(t@),
        None => None,
    }
}

/// What a style holds, with strings as character sequences.
pub struct StyleView {
    pub font_family: Option<Seq<char>>,
    pub font_size: Option<u32>,
    pub color: Option<Seq<char>>,
    pub background_color: Option<Seq<char>>,
    pub bold: bool,
    pub italic: bool,
    pub underline: bool,
}

/// What a cue holds, with strings as character sequences.
pub struct CueView {
    pub id: Seq<char>,
    pub start_ms: u64,
    pub end_ms: u64,
    pub text: Seq<char>,
    pub style: Option<StyleView>,
}

/// What a track holds, with strings as character sequences.
pub struct TrackView {
    pub format: SubtitleFormat,
    pub language: Option<Seq<char>>,
    pub title: Option<Seq<char>>,
    pub cues: Seq<CueView>,
}

impl View for SubtitleStyle {
    type V = StyleView;

    open spec fn view(&self) -> StyleView {
        StyleView {
            font_family: text_of(self.font_family),
            font_size: self.font_size,
            color: text_of(self.color),
            background_color: text_of(self.background_color),
            bold: self.bold,
            italic: self.italic,
            underline: self.underline,
        }
    }
}

impl View for SubtitleCue {
    type V = CueView;

    open spec fn view(&self) -> CueView {
        CueView {
            id: self.id@,
            start_ms: self.start_ms,
            end_ms: self.end_ms,
            text: self.text@,
            style: match self.style {
                Some(s) => Some(s@),
                None => None,
            },
        }
    }
}

/// The views of a sequence of cues.
pub open spec fn cue_views(cues: Seq<SubtitleCue>) -> Seq<CueView> {
    cues.map_values(|c: SubtitleCue| c@)
}

impl View for SubtitleTrack {
    type V = TrackView;

    open spec fn view(&self) -> TrackView {
        TrackView {
            format: self.format,
            language: text_of(self.language),
            title: text_of(self.title),
            cues: cue_views(self.cues@),
        }
    }
}

impl CueView {
    /// A cue is shown over a time span that is not empty.
    pub open spec fn is_valid(self) -> bool {
        self.start_ms < self.end_ms
    }

    /// A cue is visible from its start on and no longer at its end.
    pub open spec fn is_visible_at(self, timestamp_ms: u64) -> bool {
        self.start_ms <= timestamp_ms < self.end_ms
    }
}

impl Default for SubtitleStyle {
    /// The style that sets nothing.
    fn default() -> (s: SubtitleStyle)
        ensures
            s@ == (StyleView {
                font_family: None,
                font_size: None,
                color: None,
                background_color: None,
                bold: false,
                italic: false,
                underline: false,
            }),
    {
        SubtitleStyle {
            font_family: None,
            font_size: None,
            color: None,
            background_color: None,
            bold: false,
            italic: false,
            underline: false,
        }
    }
}

impl SubtitleCue {
    /// A cue is shown over a time span that is not empty.
    pub open spec fn is_valid(&self) -> bool {
        self@.is_valid()
    }

    /// A cue is visible from its start on and no longer at its end.
    pub open spec fn is_visible_at(&self, timestamp_ms: u64) -> bool {
        self@.is_visible_at(timestamp_ms)
    }
}

/// The cues among `cues` that are visible at `timestamp_ms`, in their order.
pub open spec fn visible_cues(cues: Seq<SubtitleCue>, timestamp_ms: u64) -> Seq<SubtitleCue> {
    cues.filter(|c: SubtitleCue| c.is_visible_at(timestamp_ms))
}

/// The interval rule: a query gives exactly the cues whose span holds the
/// timestamp, the start included and the end left out.
pub proof fn lemma_visible_cues(cues: Seq<SubtitleCue>, timestamp_ms: u64)
    ensures
        forall|c: SubtitleCue| #[trigger]
            visible_cues(cues, timestamp_ms).contains(c) <==> cues.contains(c) && c.start_ms
                <= timestamp_ms < c.end_ms,
        visible_cues(cues, timestamp_ms).len() <= cues.len(),
{
    let wanted = |c: SubtitleCue| c.is_visible_at(timestamp_ms);
    let found = cues.filter(wanted);
    cues.lemma_filter_len(wanted);
    assert forall|c: SubtitleCue| #[trigger] found.contains(c) implies cues.contains(c)
        && c.start_ms <= timestamp_ms < c.end_ms by {
        cues.lemma_filter_contains_rev(wanted, c);
        let i = choose|i: int| 0 <= i < found.len() && found[i] == c;
        cues.lemma_filter_pred(wanted, i);
    }
}

/// The cues that a sequence of references points to.
pub open spec fn referents(refs: Seq<&SubtitleCue>) -> Seq<SubtitleCue> {
    refs.map_values(|c: &SubtitleCue| *c)
}

impl SubtitleTrack {
    /// Every cue of the track is shown over a time span that is not empty.
    pub open spec fn well_formed(&self) -> bool {
        forall|i: int| 0 <= i < self.cues@.len() ==> (#[trigger] self.cues@[i]).is_valid()
    }

    /// Creates a new empty subtitle track.
    pub fn new(format: SubtitleFormat) -> (track: SubtitleTrack)
        ensures
            track@ == (TrackView { format, language: None, title: None, cues: Seq::empty() }),
            track.cues@.len() == 0,
            track.well_formed(),
    {
        let track = SubtitleTrack { format, language: None, title: None, cues: Vec::new() };
        assert(track@.cues =~= Seq::empty());
        track
    }

    /// Returns cues that should be visible at the given timestamp.
    pub fn cues_at(&self, timestamp_ms: u64) -> (found: Vec<&SubtitleCue>)
        ensures
            referents(found@) == visible_cues(self.cues@, timestamp_ms),
    {
        let mut found: Vec<&SubtitleCue> = Vec::new();
        let mut i: usize = 0;
        while i < self.cues.len()
            invariant
                i <= self.cues.len(),
                referents(found@) == visible_cues(self.cues@.take(i as int), timestamp_ms),
            decreases self.cues.len() - i,
        {
            let cue = &self.cues[i];
            if timestamp_ms >= cue.start_ms && timestamp_ms < cue.end_ms {
                found.push(cue);
            }
            proof {
                reveal(Seq::filter);
                assert(self.cues@.take(i + 1).drop_last() == self.cues@.take(i as int));
            }
            i += 1;
        }
        assert(self.cues@.take(self.cues.len() as int) == self.cues@);
        found
    }

    /// Adds a cue to the track.
    pub fn add_cue(&mut self, cue: SubtitleCue)
        requires
            cue.is_valid(),
        ensures
            final(self).cues@ == old(self).cues@.push(cue),
            final(self).format == old(self).format,
            final(self).language == old(self).language,
            final(self).title == old(self).title,
            old(self).well_formed() ==> final(self).well_formed(),
    {
        self.cues.push(cue);
    }

    /// Returns the total number of cues.
    pub fn cue_count(&self) -> (n: usize)
        ensures
            n == self.cues@.len(),
    {
        self.cues.len()
    }
}


/// The milliseconds that a timestamp `HH:MM:SS,mmm` or `HH:MM:SS.mmm` stands
/// for. The text must have exactly three parts between colons. Each number is
/// an unsigned decimal numeral of any length; the fraction may be left out,
/// and what follows a second fraction mark is not read. A timestamp whose
/// milliseconds do not fit in 64 bits stands for nothing.
pub open spec fn srt_timestamp(ts: Seq<char>) -> Option<u64> {
    let parts = split_on(replaced(ts, ',', '.'), seq![':']);
    if parts.len() != 3 {
        None
    } else {
        let sec_parts = split_on(parts[2], seq!['.']);
        let millis = if sec_parts.len() > 1 {
            parsed_u64(sec_parts[1])
        } else {
            Some(0u64)
        };
        match (parsed_u64(parts[0]), parsed_u64(parts[1]), parsed_u64(sec_parts[0]), millis) {
            (Some(h), Some(m), Some(s), Some(ms)) => {
                let total = h * 3_600_000 + m * 60_000 + s * 1000 + ms;
                if total <= u64::MAX {
                    Some(total as u64)
                } else {
                    None
                }
            },
            _ => None,
        }
    }
}

/// The start and end that a timing line `start --> end` gives: two
/// timestamps, each with white space around it removed, with one arrow between
/// them.
pub open spec fn srt_timing(line: Seq<char>) -> Option<(u64, u64)> {
    let parts = split_on(line, "-->"@);
    if parts.len() != 2 {
        None
    } else {
        match (srt_timestamp(trimmed(parts[0])), srt_timestamp(trimmed(parts[1]))) {
            (Some(start), Some(end)) => Some((start, end)),
            _ => None,
        }
    }
}

/// The cue that the block with the given number gives; the number becomes
/// the cue's identifier. A block has at least three lines: a counter, which
/// is not read, the timing line, and the text. A block with fewer lines, with
/// a timing line that cannot be read, or with a time span that is empty gives
/// no cue.
pub open spec fn srt_block_cue(block: Seq<char>, number: nat) -> Option<CueView> {
    let block_lines = lines_of(block);
    if block_lines.len() < 3 {
        None
    } else {
        match srt_timing(block_lines[1]) {
            Some((start, end)) => if start < end {
                Some(
                    CueView {
                        id: decimal(number),
                        start_ms: start,
                        end_ms: end,
                        text: joined(
                            block_lines.subrange(2, block_lines.len() as int),
                            seq!['\n'],
                        ),
                        style: None,
                    },
                )
            } else {
                None
            },
            None => None,
        }
    }
}

/// The blocks of a SubRip text: its pieces between empty lines, without those
/// that hold nothing but white space.
pub open spec fn srt_blocks(data: Seq<char>) -> Seq<Seq<char>> {
    split_on(data, "\n\n"@).filter(|b: Seq<char>| !is_blank(b))
}

/// The cues that a sequence of blocks gives, in the order of the blocks. A
/// block is numbered by its place among the blocks, from one, whether or not
/// the blocks before it gave a cue.
pub open spec fn srt_cues_of(blocks: Seq<Seq<char>>) -> Seq<CueView>
    decreases blocks.len(),
{
    if blocks.len() == 0 {
        Seq::empty()
    } else {
        let before = srt_cues_of(blocks.drop_last());
        match srt_block_cue(blocks.last(), blocks.len()) {
            Some(cue) => before.push(cue),
            None => before,
        }
    }
}

/// The cues of a SubRip text.
pub open spec fn srt_cues(data: Seq<char>) -> Seq<CueView> {
    srt_cues_of(srt_blocks(data))
}

/// The track that a SubRip text gives.
pub open spec fn srt_track(data: Seq<char>) -> TrackView {
    TrackView { format: SubtitleFormat::Srt, language: None, title: None, cues: srt_cues(data) }
}

/// The format that the content of a subtitle text points to: WebVTT where the
/// text, after leading white space, begins with `WEBVTT`; ASS where it begins
/// with `[Script Info]` or holds `[V4+ Styles]`; SubRip otherwise.
pub open spec fn detected_format(data: Seq<char>) -> SubtitleFormat {
    let t = trimmed(data);
    if has_prefix(t, "WEBVTT"@) {
        SubtitleFormat::Vtt
    } else if has_prefix(t, "[Script Info]"@) || has_infix(t, "[V4+ Styles]"@) {
        SubtitleFormat::Ass
    } else {
        SubtitleFormat::Srt
    }
}

/// The format that a text is read in: the expected one, or else the detected one.
pub open spec fn chosen_format(data: Seq<char>, format: Option<SubtitleFormat>) -> SubtitleFormat {
    match format {
        Some(f) => f,
        None => detected_format(data),
    }
}

/// The view of an optional cue.
pub open spec fn cue_view_of(cue: Option<SubtitleCue>) -> Option<CueView> {
    match cue {
        Some(c) => Some(c@),
        None => None,
    }
}

/// The vector that holds one character.
fn single(c: char) -> (v: Vec<char>)
    ensures
        v@ == seq![c],
{
    let mut v: Vec<char> = Vec::new();
    v.push(c);
    v
}

/// Reads a timestamp given as characters.
pub fn timestamp_of(ts: &Vec<char>) -> (r: Option<u64>)
    ensures
        r == srt_timestamp(ts@),
{
    let normalized = replace(ts, ',', '.');
    let colon = single(':');
    let parts = split(&normalized, &colon);
    if parts.len() != 3 {
        return None;
    }
    let dot = single('.');
    let sec_parts = split(&parts[2], &dot);
    let hours = match parse_u64(&parts[0]) {
        Some(v) => v,
        None => { return None; },
    };
    let minutes = match parse_u64(&parts[1]) {
        Some(v) => v,
        None => { return None; },
    };
    let seconds = match parse_u64(&sec_parts[0]) {
        Some(v) => v,
        None => { return None; },
    };
    let millis = if sec_parts.len() > 1 {
        match parse_u64(&sec_parts[1]) {
            Some(v) => v,
            None => { return None; },
        }
    } else {
        0
    };
    let from_hours = match hours.checked_mul(3_600_000) {
        Some(v) => v,
        None => { return None; },
    };
    let from_minutes = match minutes.checked_mul(60_000) {
        Some(v) => v,
        None => { return None; },
    };
    let from_seconds = match seconds.checked_mul(1000) {
        Some(v) => v,
        None => { return None; },
    };
    let sum = match from_hours.checked_add(from_minutes) {
        Some(v) => v,
        None => { return None; },
    };
    let sum = match sum.checked_add(from_seconds) {
        Some(v) => v,
        None => { return None; },
    };
    sum.checked_add(millis)
}

/// Reads a timing line given as characters.
pub fn timing_of(line: &Vec<char>) -> (r: Option<(u64, u64)>)
    ensures
        r == srt_timing(line@),
{
    let arrow = chars_of("-->");
    let parts = split(line, &arrow);
    if parts.len() != 2 {
        return None;
    }
    let start = match timestamp_of(&trim(&parts[0])) {
        Some(v) => v,
        None => { return None; },
    };
    let end = match timestamp_of(&trim(&parts[1])) {
        Some(v) => v,
        None => { return None; },
    };
    Some((start, end))
}

/// Reads the block with the given number, given as characters, into its cue.
pub fn block_cue(block: &Vec<char>, number: usize) -> (r: Option<SubtitleCue>)
    ensures
        cue_view_of(r) == srt_block_cue(block@, number as nat),
        r matches Some(cue) ==> cue.is_valid(),
{
    let block_lines = lines(block);
    if block_lines.len() < 3 {
        return None;
    }
    match timing_of(&block_lines[1]) {
        Some((start_ms, end_ms)) => {
            if start_ms < end_ms {
                let line_feed = single('\n');
                let text = join(&block_lines, 2, &line_feed);
                Some(
                    SubtitleCue {
                        id: string_of(&to_decimal(number)),
                        start_ms,
                        end_ms,
                        text: string_of(&text),
                        style: None,
                    },
                )
            } else {
                None
            }
        },
        None => None,
    }
}

impl SubtitleParser {
    /// Creates a new subtitle parser.
    pub fn new() -> (parser: SubtitleParser) {
        SubtitleParser
    }

    /// Parses a subtitle file from its contents.
    ///
    /// `format` is the expected subtitle format; the format is detected from
    /// the contents where it is `None`. Empty contents are an error. Only the
    /// SubRip format can be read: the other two are refused with an error.
    pub fn parse(&self, data: &str, format: Option<SubtitleFormat>) -> (r: Result<
        SubtitleTrack,
        PlayerError,
    >)
        ensures
            data@.len() == 0 ==> (r matches Err(e) && e is Subtitle && e.message()
                == "Empty subtitle data"@),
            data@.len() > 0 && chosen_format(data@, format) == SubtitleFormat::Srt ==> (r matches Ok(
                track,
            ) && track@ == srt_track(data@) && track.well_formed()),
            data@.len() > 0 && chosen_format(data@, format) == SubtitleFormat::Vtt ==> (r matches Err(
                e,
            ) && e is Subtitle && e.message() == "WebVTT subtitles are not supported"@),
            data@.len() > 0 && chosen_format(data@, format) == SubtitleFormat::Ass ==> (r matches Err(
                e,
            ) && e is Subtitle && e.message() == "ASS/SSA subtitles are not supported"@),
    {
        if data.is_empty() {
            return Err(PlayerError::subtitle("Empty subtitle data"));
        }
        let detected_format = match format {
            Some(f) => f,
            None => self.detect_format(data),
        };
        match detected_format {
            SubtitleFormat::Srt => self.parse_srt(data),
            SubtitleFormat::Vtt => self.parse_vtt(data),
            SubtitleFormat::Ass => self.parse_ass(data),
        }
    }

    /// Detects the subtitle format from content.
    pub fn detect_format(&self, data: &str) -> (format: SubtitleFormat)
        ensures
            format == detected_format(data@),
    {
        let trimmed = trim(&chars_of(data));
        if starts_with(&trimmed, &chars_of("WEBVTT")) {
            return SubtitleFormat::Vtt;
        }
        if starts_with(&trimmed, &chars_of("[Script Info]")) || contains(
            &trimmed,
            &chars_of("[V4+ Styles]"),
        ) {
            return SubtitleFormat::Ass;
        }
        SubtitleFormat::Srt
    }

    /// Parses SRT format subtitles.
    pub fn parse_srt(&self, data: &str) -> (r: Result<SubtitleTrack, PlayerError>)
        ensures
            r matches Ok(track) && track@ == srt_track(data@) && track.well_formed(),
    {
        let mut track = SubtitleTrack::new(SubtitleFormat::Srt);
        let pieces = split(&chars_of(data), &chars_of("\n\n"));
        let ghost all = texts(pieces@);
        let ghost wanted = |b: Seq<char>| !is_blank(b);
        let mut index: usize = 0;
        let mut i: usize = 0;
        while i < pieces.len()
            invariant
                index <= i <= pieces.len(),
                all == texts(pieces@),
                wanted == (|b: Seq<char>| !is_blank(b)),
                index == all.take(i as int).filter(wanted).len(),
                cue_views(track.cues@) == srt_cues_of(all.take(i as int).filter(wanted)),
                track.well_formed(),
                track.format == SubtitleFormat::Srt,
                track.language is None,
                track.title is None,
            decreases pieces.len() - i,
        {
            let block = &pieces[i];
            let ghost blocks = all.take(i as int).filter(wanted);
            proof {
                reveal(Seq::filter);
                assert(all.take(i + 1).drop_last() == all.take(i as int));
            }
            if trim(block).len() > 0 {
                assert(blocks.push(block@).drop_last() == blocks);
                match block_cue(block, index + 1) {
                    Some(cue) => track.add_cue(cue),
                    None => {},
                }
                index += 1;
            }
            i += 1;
        }
        assert(all.take(pieces.len() as int) == all);
        Ok(track)
    }

    /// Parses SRT timing string to milliseconds.
    pub fn parse_srt_timing(&self, timing: &str) -> (r: Option<(u64, u64)>)
        ensures
            r == srt_timing(timing@),
    {
        timing_of(&chars_of(timing))
    }

    /// Parses a single SRT timestamp to milliseconds.
    pub fn parse_srt_timestamp(&self, ts: &str) -> (r: Option<u64>)
        ensures
            r == srt_timestamp(ts@),
    {
        timestamp_of(&chars_of(ts))
    }

    /// Refuses WebVTT subtitles, which this parser cannot read.
    pub fn parse_vtt(&self, _data: &str) -> (r: Result<SubtitleTrack, PlayerError>)
        ensures
            r matches Err(e) && e is Subtitle && e.message()
                == "WebVTT subtitles are not supported"@,
    {
        Err(PlayerError::subtitle("WebVTT subtitles are not supported"))
    }

    /// Refuses ASS/SSA subtitles, which this parser cannot read.
    pub fn parse_ass(&self, _data: &str) -> (r: Result<SubtitleTrack, PlayerError>)
        ensures
            r matches Err(e) && e is Subtitle && e.message()
                == "ASS/SSA subtitles are not supported"@,
    {
        Err(PlayerError::subtitle("ASS/SSA subtitles are not supported"))
    }
}

} // verus!

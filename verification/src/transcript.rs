//! The meeting transcript: its file name, its header, one line per
//! transcribed segment, and the final document written when a meeting ends.

use vstd::prelude::*;
use vstd::string::StringExecFns;
use crate::clock::{
    ClockReading, time_text, file_stamp_text, duration_text, title_stamp_text, title_stamp,
    time_stamp, file_stamp, push_duration, MAX_EPOCH_SECONDS,
};
use crate::text::push_char;

verus! {

/// One transcribed segment of a meeting: when its text arrived, and the text.
#[derive(Clone, Debug)]
pub struct MeetingSegment {
    pub at: ClockReading,
    pub text: String,
}

/// What the frontend is told about each transcribed meeting segment.
#[derive(Clone, Debug)]
pub struct MeetingSegmentEvent {
    pub text: String,
    /// `[HH:MM:SS]`.
    pub timestamp: String,
    /// 0 for the first segment of the session, then one more for each.
    pub index: u32,
}

/// `meeting_%Y-%m-%d_%H-%M-%S.txt`.
pub open spec fn transcript_file_name_text(start: ClockReading) -> Seq<char> {
    "meeting_"@ + file_stamp_text(start) + ".txt"@
}

/// `Meeting: %Y-%m-%d %H:%M`.
pub open spec fn meeting_title_text(start: ClockReading) -> Seq<char> {
    "Meeting: "@ + title_stamp_text(start)
}

/// The header written when a meeting starts: the title line and a blank line.
pub open spec fn transcript_header_text(start: ClockReading) -> Seq<char> {
    meeting_title_text(start) + seq!['\n', '\n']
}

/// `[HH:MM:SS]`.
pub open spec fn bracketed_time_text(t: ClockReading) -> Seq<char> {
    seq!['['] + time_text(t) + seq![']']
}

/// `[HH:MM:SS] text` and a newline.
pub open spec fn segment_line_text(t: ClockReading, text: Seq<char>) -> Seq<char> {
    bracketed_time_text(t) + seq![' '] + text + seq!['\n']
}

/// The lines of `segments`, in order.
pub open spec fn segment_lines_text(segments: Seq<MeetingSegment>) -> Seq<char>
    decreases segments.len(),
{
    if segments.len() == 0 {
        Seq::empty()
    } else {
        segment_lines_text(segments.drop_last()) + segment_line_text(
            segments.last().at,
            segments.last().text@,
        )
    }
}

/// The document saved when a meeting ends: title, duration, a blank line,
/// then one line per segment.
pub open spec fn transcript_text(
    start: ClockReading,
    elapsed: int,
    segments: Seq<MeetingSegment>,
) -> Seq<char> {
    meeting_title_text(start) + "\nDuration: "@ + duration_text(elapsed) + seq!['\n', '\n']
        + segment_lines_text(segments)
}

/// The file name of the transcript of a meeting that started at `start`.
pub fn transcript_file_name(start: &ClockReading) -> (name: String)
    ensures
        name@ == transcript_file_name_text(*start),
{
    let mut s = String::new();
    s.append("meeting_");
    let stamp = file_stamp(start);
    s.append(stamp.as_str());
    s.append(".txt");
    assert(s@ =~= transcript_file_name_text(*start));
    s
}

/// The header written to a transcript file when its meeting starts.
pub fn transcript_header(start: &ClockReading) -> (header: String)
    ensures
        header@ == transcript_header_text(*start),
{
    let mut s = String::new();
    push_meeting_title(&mut s, start);
    push_char(&mut s, '\n');
    push_char(&mut s, '\n');
    assert(s@ =~= transcript_header_text(*start));
    s
}

fn push_meeting_title(s: &mut String, start: &ClockReading)
    ensures
        final(s)@ == old(s)@ + meeting_title_text(*start),
{
    s.append("Meeting: ");
    let stamp = title_stamp(start);
    s.append(stamp.as_str());
    assert(s@ =~= old(s)@ + meeting_title_text(*start));
}

/// `[HH:MM:SS]` of `t`.
pub fn bracketed_time(t: &ClockReading) -> (stamp: String)
    ensures
        stamp@ == bracketed_time_text(*t),
{
    let mut s = String::new();
    push_char(&mut s, '[');
    let time = time_stamp(t);
    s.append(time.as_str());
    push_char(&mut s, ']');
    assert(s@ =~= bracketed_time_text(*t));
    s
}

fn push_segment_line(s: &mut String, t: &ClockReading, text: &str)
    ensures
        final(s)@ == old(s)@ + segment_line_text(*t, text@),
{
    push_char(s, '[');
    let time = time_stamp(t);
    s.append(time.as_str());
    push_char(s, ']');
    push_char(s, ' ');
    s.append(text);
    push_char(s, '\n');
    assert(s@ =~= old(s)@ + segment_line_text(*t, text@));
}

/// The transcript line of one segment.
pub fn segment_line(t: &ClockReading, text: &str) -> (line: String)
    ensures
        line@ == segment_line_text(*t, text@),
{
    let mut s = String::new();
    push_segment_line(&mut s, t, text);
    assert(s@ =~= segment_line_text(*t, text@));
    s
}

/// The document saved when a meeting that started at `start` ends after
/// `elapsed` seconds, holding `segments`.
pub fn transcript_document(start: &ClockReading, elapsed: i64, segments: &Vec<MeetingSegment>) -> (doc: String)
    requires
        -MAX_EPOCH_SECONDS * 2 <= elapsed <= MAX_EPOCH_SECONDS * 2,
    ensures
        doc@ == transcript_text(*start, elapsed as int, segments@),
{
    let mut s = String::new();
    push_meeting_title(&mut s, start);
    s.append("\nDuration: ");
    push_duration(&mut s, elapsed);
    push_char(&mut s, '\n');
    push_char(&mut s, '\n');
    let ghost head = s@;
    assert(segments@.take(0) =~= Seq::<MeetingSegment>::empty());
    let mut i: usize = 0;
    while i < segments.len()
        invariant
            i <= segments.len(),
            s@ == head + segment_lines_text(segments@.take(i as int)),
        decreases segments.len() - i,
    {
        push_segment_line(&mut s, &segments[i].at, segments[i].text.as_str());
        assert(segments@.take(i + 1).drop_last() =~= segments@.take(i as int));
        i = i + 1;
        assert(s@ =~= head + segment_lines_text(segments@.take(i as int)));
    }
    assert(segments@.take(segments.len() as int) =~= segments@);
    assert(s@ =~= transcript_text(*start, elapsed as int, segments@));
    s
}

/// Numbers the segments a meeting's transcription worker emits.
#[derive(Clone, Copy, Debug)]
pub struct SegmentNumbering {
    /// The index the next non-empty transcription gets.
    pub next_index: u32,
}

/// What the worker does with one non-empty transcription: the line it
/// appends to the transcript file, and the event it sends to the frontend.
#[derive(Clone, Debug)]
pub struct TranscribedSegment {
    pub line: String,
    pub event: MeetingSegmentEvent,
}

impl SegmentNumbering {
    /// The numbering at the start of a session.
    pub fn new() -> (n: Self)
        ensures
            n.next_index == 0,
    {
        SegmentNumbering { next_index: 0 }
    }

    /// Takes the text that transcribing one chunk gave, read at `at`.
    /// Empty text (silence or noise) is skipped and takes no index; other
    /// text gets the next index, a transcript line and an event.
    pub fn accept(&mut self, text: String, at: &ClockReading) -> (out: Option<TranscribedSegment>)
        requires
            old(self).next_index < u32::MAX,
        ensures
            text@.len() == 0 ==> out is None && final(self).next_index == old(self).next_index,
            text@.len() > 0 ==> {
                &&& out matches Some(seg)
                &&& seg.line@ == segment_line_text(*at, text@)
                &&& seg.event.text@ == text@
                &&& seg.event.timestamp@ == bracketed_time_text(*at)
                &&& seg.event.index == old(self).next_index
                &&& final(self).next_index == old(self).next_index + 1
            },
    {
        if text.as_str().is_empty() {
            return None;
        }
        let line = segment_line(at, text.as_str());
        let index = self.next_index;
        self.next_index = self.next_index + 1;
        Some(
            TranscribedSegment {
                line,
                event: MeetingSegmentEvent { text, timestamp: bracketed_time(at), index },
            },
        )
    }
}

/// Each segment added to a meeting adds exactly its own line at the end of
/// the saved transcript, so the transcript lists the segments in the order
/// they came; the worker's line for a segment is that same line.
pub proof fn lemma_segment_appends_its_line(
    start: ClockReading,
    elapsed: int,
    segments: Seq<MeetingSegment>,
    segment: MeetingSegment,
)
    ensures
        transcript_text(start, elapsed, segments.push(segment)) == transcript_text(
            start,
            elapsed,
            segments,
        ) + segment_line_text(segment.at, segment.text@),
{
    assert(segments.push(segment).drop_last() =~= segments);
    assert(transcript_text(start, elapsed, segments.push(segment)) =~= transcript_text(
        start,
        elapsed,
        segments,
    ) + segment_line_text(segment.at, segment.text@));
}

} // verus!

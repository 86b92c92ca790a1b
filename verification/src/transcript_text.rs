//! How transcripts and their sources are written out for the user: clock
//! timestamps, duration labels, timestamped transcript lines and the file
//! name a path ends in.
use vstd::prelude::*;

use crate::live::{clock_spec, format_duration};
use crate::models::TranscriptSegment;
use crate::text::{chars_of, trim, trim_spec};

verus! {

/// `MM:SS` for a signed millisecond offset; negative offsets read as zero.
pub open spec fn timestamp_spec(milliseconds: i64) -> Seq<char> {
    clock_spec(
        if milliseconds < 0 {
            0
        } else {
            milliseconds as u64
        },
    )
}

/// `MM:SS` for a millisecond offset (minutes take more digits past 99).
pub fn format_timestamp(milliseconds: i64) -> (r: String)
    ensures
        r@ == timestamp_spec(milliseconds),
{
    let ms: u64 = if milliseconds < 0 {
        0
    } else {
        milliseconds as u64
    };
    format_duration(ms)
}

/// `Duration: MM:SS`; a duration beyond the signed range reads as zero.
pub open spec fn duration_label_spec(duration_ms: u64) -> Seq<char> {
    "Duration: "@ + timestamp_spec(
        if duration_ms <= i64::MAX {
            duration_ms as i64
        } else {
            -1i64
        },
    )
}

/// The duration line shown under a transcript.
pub fn format_duration_label(duration_ms: u64) -> (r: String)
    ensures
        r@ == duration_label_spec(duration_ms),
{
    let ms: i64 = if duration_ms <= i64::MAX as u64 {
        duration_ms as i64
    } else {
        -1
    };
    let mut r = String::from_str("Duration: ");
    proof {
        reveal_strlit("Duration: ");
    }
    let t = format_timestamp(ms);
    r.append(t.as_str());
    r
}

/// One transcript line: `[start - end] text`.
pub open spec fn segment_line(s: TranscriptSegment) -> Seq<char> {
    seq!['['] + timestamp_spec(s.start_ms) + " - "@ + timestamp_spec(s.end_ms) + "] "@ + trim_spec(
        s.text@,
    )
}

/// The lines of the segments, one per line.
pub open spec fn segment_lines(segments: Seq<TranscriptSegment>) -> Seq<char>
    decreases segments.len(),
{
    if segments.len() == 0 {
        Seq::empty()
    } else if segments.len() == 1 {
        segment_line(segments[0])
    } else {
        segment_lines(segments.drop_last()) + seq!['\n'] + segment_line(segments.last())
    }
}

/// The transcript with a timestamp on each segment; without segments, the
/// plain text trimmed.
pub fn format_transcript_with_timestamps(segments: &[TranscriptSegment], fallback_text: &str) -> (r:
    String)
    ensures
        segments@.len() == 0 ==> r@ == trim_spec(fallback_text@),
        segments@.len() > 0 ==> r@ == segment_lines(segments@),
{
    if segments.len() == 0 {
        return trim(fallback_text);
    }
    let mut out = String::new();
    let mut i: usize = 0;
    while i < segments.len()
        invariant
            i <= segments@.len(),
            out@ == segment_lines(segments@.subrange(0, i as int)),
        decreases segments@.len() - i,
    {
        let s = &segments[i];
        if i > 0 {
            out.push('\n');
        }
        out.push('[');
        out.append(format_timestamp(s.start_ms).as_str());
        out.append(" - ");
        out.append(format_timestamp(s.end_ms).as_str());
        out.append("] ");
        out.append(trim(s.text.as_str()).as_str());
        proof {
            reveal_strlit(" - ");
            reveal_strlit("] ");
            let sub = segments@.subrange(0, i + 1);
            assert(sub.drop_last() =~= segments@.subrange(0, i as int));
            assert(sub.last() == segments@[i as int]);
            if i == 0 {
                assert(out@ =~= segment_line(segments@[0]));
            } else {
                assert(out@ =~= segment_lines(sub.drop_last()) + seq!['\n'] + segment_line(
                    sub.last(),
                ));
            }
        }
        i = i + 1;
    }
    assert(segments@.subrange(0, segments@.len() as int) =~= segments@);
    out
}

/// A path separator for file names: `/` or `\`.
pub open spec fn is_path_separator(c: char) -> bool {
    c == '/' || c == '\\'
}

/// What follows the last separator of `s` (all of `s` when it has none).
pub open spec fn after_last_separator(s: Seq<char>) -> Seq<char>
    decreases s.len(),
{
    if s.len() == 0 {
        s
    } else if is_path_separator(s.last()) {
        Seq::empty()
    } else {
        after_last_separator(s.drop_last()).push(s.last())
    }
}

proof fn lemma_after_last_separator(s: Seq<char>, j: int)
    requires
        0 <= j <= s.len(),
        j == 0 || is_path_separator(s[j - 1]),
        forall|k: int| j <= k < s.len() ==> !is_path_separator(s[k]),
    ensures
        after_last_separator(s) == s.subrange(j, s.len() as int),
    decreases s.len(),
{
    if s.len() == j {
        assert(s.subrange(j, s.len() as int) =~= Seq::<char>::empty());
    } else {
        lemma_after_last_separator(s.drop_last(), j);
        assert(s.subrange(j, s.len() as int) =~= s.drop_last().subrange(j, s.len() - 1).push(
            s.last(),
        ));
    }
}

/// The file name a path ends in (after the last `/` or `\`); a path ending
/// in a separator names itself.
pub open spec fn file_name_spec(path: Seq<char>) -> Seq<char> {
    if after_last_separator(path).len() > 0 {
        after_last_separator(path)
    } else {
        path
    }
}

/// The file name a path ends in, for display.
pub fn file_name_from_path(path: &str) -> (r: String)
    ensures
        r@ == file_name_spec(path@),
{
    let v = chars_of(path);
    let mut j: usize = v.len();
    while j > 0 && v[j - 1] != '/' && v[j - 1] != '\\'
        invariant
            j <= v@.len(),
            forall|k: int| j <= k < v@.len() ==> !is_path_separator(v@[k]),
        decreases j,
    {
        j = j - 1;
    }
    proof {
        lemma_after_last_separator(v@, j as int);
    }
    if j == v.len() {
        path.to_owned()
    } else {
        let mut out = String::new();
        let mut k: usize = j;
        while k < v.len()
            invariant
                j <= k <= v@.len(),
                out@ == v@.subrange(j as int, k as int),
            decreases v@.len() - k,
        {
            out.push(v[k]);
            k = k + 1;
            assert(out@ =~= v@.subrange(j as int, k as int));
        }
        out
    }
}

} // verus!

//! The transcription job as the UI tracks it: progress, streamed partial
//! segments, the finished transcript and the job status line.
use vstd::prelude::*;

use crate::errors::prefixed;
use crate::models::{
    InputType, TranscriptResult, TranscriptSegment, TranscriptionJobState,
    TranscriptionJobStatus, TranscriptionSource, TranscriptionStreamEvent,
};
use crate::text::{decimal, trim_spec};

verus! {

impl TranscriptSegment {
    /// An equal copy.
    pub fn duplicate(&self) -> (r: Self)
        ensures
            r == *self,
    {
        TranscriptSegment { start_ms: self.start_ms, end_ms: self.end_ms, text: self.text.clone() }
    }
}

/// An equal copy of an optional string.
pub fn duplicate_opt(o: &Option<String>) -> (r: Option<String>)
    ensures
        r == *o,
{
    match o {
        Some(s) => Some(s.clone()),
        None => None,
    }
}

/// An equal copy of a list of segments.
pub fn duplicate_segments(v: &Vec<TranscriptSegment>) -> (r: Vec<TranscriptSegment>)
    ensures
        r@ == v@,
{
    let mut r: Vec<TranscriptSegment> = Vec::new();
    let mut i: usize = 0;
    while i < v.len()
        invariant
            i <= v@.len(),
            r@ == v@.subrange(0, i as int),
        decreases v@.len() - i,
    {
        r.push(v[i].duplicate());
        i = i + 1;
        assert(r@ =~= v@.subrange(0, i as int));
    }
    assert(v@.subrange(0, v@.len() as int) =~= v@);
    r
}

impl TranscriptionSource {
    /// An equal copy.
    pub fn duplicate(&self) -> (r: Self)
        ensures
            r == *self,
    {
        TranscriptionSource {
            provider: self.provider.clone(),
            model_id: self.model_id.clone(),
            input_type: self.input_type,
            live_capture_profile: self.live_capture_profile,
            source_name: duplicate_opt(&self.source_name),
            duration_ms: self.duration_ms,
        }
    }
}

impl TranscriptResult {
    /// A copy with equal fields (the segment list equal as a sequence).
    pub fn duplicate(&self) -> (r: Self)
        ensures
            r.text == self.text,
            r.segments@ == self.segments@,
            r.source == self.source,
            r.post_processed_text == self.post_processed_text,
    {
        TranscriptResult {
            text: self.text.clone(),
            segments: duplicate_segments(&self.segments),
            source: self.source.duplicate(),
            post_processed_text: duplicate_opt(&self.post_processed_text),
        }
    }
}

/// Status line while a job is running: `Transcribing {name} ({p}%)`, or
/// `Transcribing audio ({p}%)` without a usable name.
pub open spec fn progress_message_spec(source_name: Option<Seq<char>>, p: i32) -> Seq<char> {
    let pct = if p < 0 {
        seq!['-'] + decimal((-p) as nat)
    } else {
        decimal(p as nat)
    };
    match source_name {
        Some(n) => if trim_spec(n).len() > 0 {
            "Transcribing "@ + n + " ("@ + pct + "%)"@
        } else {
            "Transcribing audio ("@ + pct + "%)"@
        },
        None => "Transcribing audio ("@ + pct + "%)"@,
    }
}

/// Status line when a job starts.
pub open spec fn start_message_spec(source_name: Seq<char>) -> Seq<char> {
    if trim_spec(source_name).len() == 0 {
        "Transcribing audio"@
    } else {
        "Transcribing "@ + source_name
    }
}

/// View of an optional string.
pub open spec fn opt_seq(o: Option<String>) -> Option<Seq<char>> {
    match o {
        Some(s) => Some(s@),
        None => None,
    }
}

fn push_percent(out: &mut String, p: i32)
    ensures
        final(out)@ == old(out)@ + (if p < 0 {
            seq!['-'] + decimal((-p) as nat)
        } else {
            decimal(p as nat)
        }) + "%)"@,
{
    if p < 0 {
        out.push('-');
        let magnitude: u64 = if p == i32::MIN { 2147483648u64 } else { (-p) as u64 };
        crate::text::push_decimal(out, magnitude);
    } else {
        crate::text::push_decimal(out, p as u64);
    }
    out.append("%)");
    assert(final(out)@ =~= old(out)@ + (if p < 0 {
        seq!['-'] + decimal((-p) as nat)
    } else {
        decimal(p as nat)
    }) + "%)"@);
}

/// Status line while a job is running.
pub fn progress_message(source_name: &Option<String>, progress_percent: i32) -> (r: String)
    ensures
        r@ == progress_message_spec(opt_seq(*source_name), progress_percent),
{
    let named = match source_name {
        Some(n) => !crate::text::is_blank(n.as_str()),
        None => false,
    };
    if named {
        let n = source_name.as_ref().unwrap();
        let mut r = prefixed("Transcribing ", n.as_str());
        r.append(" (");
        push_percent(&mut r, progress_percent);
        r
    } else {
        let mut r = "Transcribing audio (".to_owned();
        push_percent(&mut r, progress_percent);
        r
    }
}

/// Status line when a job starts.
pub fn start_message(source_name: &str) -> (r: String)
    ensures
        r@ == start_message_spec(source_name@),
{
    if crate::text::is_blank(source_name) {
        "Transcribing audio".to_owned()
    } else {
        prefixed("Transcribing ", source_name)
    }
}

/// An idle status for the given input type.
pub fn idle_job_status(input_type: InputType) -> (r: TranscriptionJobStatus)
    ensures
        r.state == TranscriptionJobState::Idle,
        r.input_type == input_type,
        r.source_name is None,
        r.message is None,
{
    TranscriptionJobStatus {
        state: TranscriptionJobState::Idle,
        input_type,
        source_name: None,
        message: None,
    }
}

/// The segment list after a streamed segment arrives: a known index is
/// replaced, any other index (negative ones count as 0) appends.
pub open spec fn merged_segments(
    segments: Seq<TranscriptSegment>,
    index: i32,
    segment: TranscriptSegment,
) -> Seq<TranscriptSegment> {
    let i = if index < 0 {
        0
    } else {
        index as int
    };
    if i < segments.len() {
        segments.update(i, segment)
    } else {
        segments.push(segment)
    }
}

/// A segment delivered twice leaves the list as one delivery does, when its
/// index is at most the number of segments already held (a later index
/// appends again).
pub proof fn law_repeated_segment_is_harmless(
    segments: Seq<TranscriptSegment>,
    index: i32,
    segment: TranscriptSegment,
)
    requires
        index <= segments.len(),
    ensures
        merged_segments(merged_segments(segments, index, segment), index, segment)
            == merged_segments(segments, index, segment),
{
    let once = merged_segments(segments, index, segment);
    let i = if index < 0 {
        0
    } else {
        index as int
    };
    assert(once[i] == segment);
    assert(once.update(i, segment) =~= once);
}

/// State of the current or last transcription job.
pub struct TranscriptionController {
    pub transcript: Option<TranscriptResult>,
    pub partial_text: String,
    pub partial_segments: Vec<TranscriptSegment>,
    pub progress_percent: Option<i32>,
    pub job_status: TranscriptionJobStatus,
    pub is_transcribing: bool,
    pub completion_nonce: u64,
}

impl TranscriptionController {
    /// No job yet: idle, empty, nonce 0.
    pub fn new() -> (r: Self)
        ensures
            r.transcript is None,
            r.partial_text@.len() == 0,
            r.partial_segments@.len() == 0,
            r.progress_percent is None,
            r.job_status.state == TranscriptionJobState::Idle,
            r.job_status.input_type == InputType::File,
            r.job_status.source_name is None,
            r.job_status.message is None,
            !r.is_transcribing,
            r.completion_nonce == 0,
    {
        TranscriptionController {
            transcript: None,
            partial_text: String::new(),
            partial_segments: Vec::new(),
            progress_percent: None,
            job_status: idle_job_status(InputType::File),
            is_transcribing: false,
            completion_nonce: 0,
        }
    }

    /// Clears the status message; a failed or running state becomes idle,
    /// a succeeded one stays.
    pub fn reset_job_feedback(&mut self)
        ensures
            final(self).job_status.message is None,
            final(self).job_status.state == (if old(self).job_status.state
                == TranscriptionJobState::Succeeded {
                TranscriptionJobState::Succeeded
            } else {
                TranscriptionJobState::Idle
            }),
            final(self).job_status.input_type == old(self).job_status.input_type,
            final(self).job_status.source_name == old(self).job_status.source_name,
            final(self).transcript == old(self).transcript,
            final(self).partial_text == old(self).partial_text,
            final(self).partial_segments@ == old(self).partial_segments@,
            final(self).progress_percent == old(self).progress_percent,
            final(self).is_transcribing == old(self).is_transcribing,
            final(self).completion_nonce == old(self).completion_nonce,
    {
        self.job_status.message = None;
        if self.job_status.state != TranscriptionJobState::Succeeded {
            self.job_status.state = TranscriptionJobState::Idle;
        }
    }

    fn clear_partial_state(&mut self)
        ensures
            final(self).partial_text@.len() == 0,
            final(self).partial_segments@.len() == 0,
            final(self).progress_percent is None,
            final(self).transcript == old(self).transcript,
            final(self).job_status == old(self).job_status,
            final(self).is_transcribing == old(self).is_transcribing,
            final(self).completion_nonce == old(self).completion_nonce,
    {
        self.partial_text = String::new();
        self.partial_segments = Vec::new();
        self.progress_percent = None;
    }

    /// A job that could not start: partial state cleared, failed status.
    pub fn set_preflight_failure(&mut self, input_type: InputType, message: String)
        ensures
            final(self).partial_text@.len() == 0,
            final(self).partial_segments@.len() == 0,
            final(self).progress_percent is None,
            !final(self).is_transcribing,
            final(self).job_status.state == TranscriptionJobState::Failed,
            final(self).job_status.input_type == input_type,
            final(self).job_status.source_name is None,
            final(self).job_status.message == Some(message),
            final(self).transcript == old(self).transcript,
            final(self).completion_nonce == old(self).completion_nonce,
    {
        self.clear_partial_state();
        self.is_transcribing = false;
        self.job_status = TranscriptionJobStatus {
            state: TranscriptionJobState::Failed,
            input_type,
            source_name: None,
            message: Some(message),
        };
    }

    fn start_job(&mut self, input_type: InputType, source_name: String)
        ensures
            final(self).transcript is None,
            final(self).partial_text@.len() == 0,
            final(self).partial_segments@.len() == 0,
            final(self).progress_percent == Some(0i32),
            final(self).is_transcribing,
            final(self).job_status.state == TranscriptionJobState::Running,
            final(self).job_status.input_type == input_type,
            final(self).job_status.source_name == Some(source_name),
            final(self).job_status.message matches Some(m) && m@ == start_message_spec(
                source_name@,
            ),
            final(self).completion_nonce == old(self).completion_nonce,
    {
        self.transcript = None;
        self.clear_partial_state();
        self.progress_percent = Some(0);
        self.is_transcribing = true;
        let message = start_message(source_name.as_str());
        self.job_status = TranscriptionJobStatus {
            state: TranscriptionJobState::Running,
            input_type,
            source_name: Some(source_name),
            message: Some(message),
        };
    }

    /// Starts a file job: previous transcript and partial state cleared,
    /// progress 0, running.
    pub fn start_file_job(&mut self, source_name: String)
        ensures
            final(self).transcript is None,
            final(self).partial_text@.len() == 0,
            final(self).partial_segments@.len() == 0,
            final(self).progress_percent == Some(0i32),
            final(self).is_transcribing,
            final(self).job_status.state == TranscriptionJobState::Running,
            final(self).job_status.input_type == InputType::File,
            final(self).job_status.source_name == Some(source_name),
            final(self).job_status.message matches Some(m) && m@ == start_message_spec(
                source_name@,
            ),
            final(self).completion_nonce == old(self).completion_nonce,
    {
        self.start_job(InputType::File, source_name);
    }

    /// Starts a live job, as `start_file_job` does for files.
    pub fn start_live_job(&mut self, source_name: String)
        ensures
            final(self).transcript is None,
            final(self).partial_text@.len() == 0,
            final(self).partial_segments@.len() == 0,
            final(self).progress_percent == Some(0i32),
            final(self).is_transcribing,
            final(self).job_status.state == TranscriptionJobState::Running,
            final(self).job_status.input_type == InputType::Live,
            final(self).job_status.source_name == Some(source_name),
            final(self).job_status.message matches Some(m) && m@ == start_message_spec(
                source_name@,
            ),
            final(self).completion_nonce == old(self).completion_nonce,
    {
        self.start_job(InputType::Live, source_name);
    }

    /// Applies a streamed update: progress updates the percentage and status
    /// line; a segment replaces the one at its index (or appends) and the
    /// accumulated text becomes the partial text.
    pub fn apply_stream_event(&mut self, event: TranscriptionStreamEvent)
        ensures
            final(self).job_status.state == TranscriptionJobState::Running,
            final(self).job_status.input_type == old(self).job_status.input_type,
            final(self).job_status.source_name == old(self).job_status.source_name,
            final(self).transcript == old(self).transcript,
            final(self).is_transcribing == old(self).is_transcribing,
            final(self).completion_nonce == old(self).completion_nonce,
            match event {
                TranscriptionStreamEvent::Progress { progress_percent } => {
                    &&& final(self).progress_percent == Some(progress_percent)
                    &&& final(self).job_status.message matches Some(m) && m@
                        == progress_message_spec(
                        opt_seq(old(self).job_status.source_name),
                        progress_percent,
                    )
                    &&& final(self).partial_text == old(self).partial_text
                    &&& final(self).partial_segments@ == old(self).partial_segments@
                },
                TranscriptionStreamEvent::Segment { segment_index, segment, accumulated_text } => {
                    &&& final(self).partial_text == accumulated_text
                    &&& final(self).partial_segments@ == merged_segments(
                        old(self).partial_segments@,
                        segment_index,
                        segment,
                    )
                    &&& final(self).job_status.message matches Some(m) && m@
                        == "Receiving transcript segments..."@
                    &&& final(self).progress_percent == old(self).progress_percent
                },
            },
    {
        let input_type = self.job_status.input_type;
        let source_name = duplicate_opt(&self.job_status.source_name);
        match event {
            TranscriptionStreamEvent::Progress { progress_percent } => {
                self.progress_percent = Some(progress_percent);
                let message = progress_message(&source_name, progress_percent);
                self.job_status = TranscriptionJobStatus {
                    state: TranscriptionJobState::Running,
                    input_type,
                    source_name,
                    message: Some(message),
                };
            },
            TranscriptionStreamEvent::Segment { segment_index, segment, accumulated_text } => {
                self.partial_text = accumulated_text;
                let index: usize = if segment_index < 0 {
                    0
                } else {
                    segment_index as usize
                };
                if index < self.partial_segments.len() {
                    self.partial_segments.set(index, segment);
                } else {
                    self.partial_segments.push(segment);
                }
                self.job_status = TranscriptionJobStatus {
                    state: TranscriptionJobState::Running,
                    input_type,
                    source_name,
                    message: Some("Receiving transcript segments...".to_owned()),
                };
            },
        }
    }

    /// A finished job: the result becomes the transcript and the partial
    /// state, progress 100, the completion nonce advances (saturating), and
    /// the status reports success with the result's input type and source.
    pub fn complete_job(&mut self, result: TranscriptResult)
        ensures
            final(self).transcript == Some(result),
            final(self).partial_text == result.text,
            final(self).partial_segments@ == result.segments@,
            final(self).progress_percent == Some(100i32),
            !final(self).is_transcribing,
            final(self).completion_nonce == (if old(self).completion_nonce == u64::MAX {
                u64::MAX as int
            } else {
                old(self).completion_nonce + 1
            }),
            final(self).job_status.state == TranscriptionJobState::Succeeded,
            final(self).job_status.input_type == result.source.input_type,
            final(self).job_status.source_name == result.source.source_name,
            final(self).job_status.message matches Some(m) && m@ == "Transcript ready for review."@,
    {
        let copy = result.duplicate();
        self.partial_text = copy.text;
        self.partial_segments = copy.segments;
        self.progress_percent = Some(100);
        self.is_transcribing = false;
        if self.completion_nonce < u64::MAX {
            self.completion_nonce = self.completion_nonce + 1;
        }
        let input_type = result.source.input_type;
        let source_name = duplicate_opt(&result.source.source_name);
        self.transcript = Some(result);
        self.job_status = TranscriptionJobStatus {
            state: TranscriptionJobState::Succeeded,
            input_type,
            source_name,
            message: Some("Transcript ready for review.".to_owned()),
        };
    }

    /// A failed job: no transcript, no progress, failed status with the
    /// error; the partial text and segments stay as a draft.
    pub fn fail_job(&mut self, input_type: InputType, source_name: Option<String>, error: String)
        ensures
            final(self).transcript is None,
            final(self).progress_percent is None,
            !final(self).is_transcribing,
            final(self).job_status.state == TranscriptionJobState::Failed,
            final(self).job_status.input_type == input_type,
            final(self).job_status.source_name == source_name,
            final(self).job_status.message == Some(error),
            final(self).partial_text == old(self).partial_text,
            final(self).partial_segments@ == old(self).partial_segments@,
            final(self).completion_nonce == old(self).completion_nonce,
    {
        self.transcript = None;
        self.progress_percent = None;
        self.is_transcribing = false;
        self.job_status = TranscriptionJobStatus {
            state: TranscriptionJobState::Failed,
            input_type,
            source_name,
            message: Some(error),
        };
    }
}

} // verus!

//! What the screens show: navigation labels, note dates and sources,
//! transcript labels and hints, when to jump to or focus a finished live
//! transcript, and how shortcuts and generated ids are written.
use vstd::prelude::*;

use crate::capture::{prefix_within, utf8_len, utf8_width};
use crate::live::{clock_spec, format_duration};
use crate::models::{
    InputType, LiveCaptureProfile, NoteSource, TranscriptResult, TranscriptionJobState,
    TranscriptionJobStatus, TranscriptionSource,
};
use crate::text::{chars_of, decimal, split_on, is_blank, padded_decimal, push_decimal, push_padded, str_eq, trim, trim_spec};

verus! {

// ---------------------------------------------------------------------------
// Navigation and notes
// ---------------------------------------------------------------------------

/// The app's screens.
#[derive(Debug, Clone, Copy, PartialEq, Eq, Structural)]
pub enum Screen {
    Transcribe,
    PostProcess,
    Settings,
}

impl Screen {
    /// The screen's name in the sidebar.
    pub fn label(self) -> (r: &'static str)
        ensures
            r@ == match self {
                Screen::Transcribe => "Transcribe"@,
                Screen::PostProcess => "Post-process"@,
                Screen::Settings => "Settings"@,
            },
    {
        match self {
            Screen::Transcribe => "Transcribe",
            Screen::PostProcess => "Post-process",
            Screen::Settings => "Settings",
        }
    }

    /// The screens in sidebar order.
    pub fn all() -> (r: [Screen; 3])
        ensures
            r@ == seq![Screen::Transcribe, Screen::PostProcess, Screen::Settings],
    {
        let r = [Screen::Transcribe, Screen::PostProcess, Screen::Settings];
        assert(r@ =~= seq![Screen::Transcribe, Screen::PostProcess, Screen::Settings]);
        r
    }
}

/// How a note's origin is named in the list.
pub fn note_source_label(source: NoteSource) -> (r: &'static str)
    ensures
        r@ == match source {
            NoteSource::Manual => "Manual"@,
            NoteSource::Transcription => "Transcription"@,
            NoteSource::PostProcessing => "Post-processing"@,
        },
{
    match source {
        NoteSource::Manual => "Manual",
        NoteSource::Transcription => "Transcription",
        NoteSource::PostProcessing => "Post-processing",
    }
}

/// The short name of a two-digit month, else the text itself.
pub open spec fn month_name(m: Seq<char>) -> Seq<char> {
    if m == "01"@ {
        "Jan"@
    } else if m == "02"@ {
        "Feb"@
    } else if m == "03"@ {
        "Mar"@
    } else if m == "04"@ {
        "Apr"@
    } else if m == "05"@ {
        "May"@
    } else if m == "06"@ {
        "Jun"@
    } else if m == "07"@ {
        "Jul"@
    } else if m == "08"@ {
        "Aug"@
    } else if m == "09"@ {
        "Sep"@
    } else if m == "10"@ {
        "Oct"@
    } else if m == "11"@ {
        "Nov"@
    } else if m == "12"@ {
        "Dec"@
    } else {
        m
    }
}

fn month_name_exec(m: &str) -> (r: String)
    ensures
        r@ == month_name(m@),
{
    if str_eq(m, "01") {
        String::from_str("Jan")
    } else if str_eq(m, "02") {
        String::from_str("Feb")
    } else if str_eq(m, "03") {
        String::from_str("Mar")
    } else if str_eq(m, "04") {
        String::from_str("Apr")
    } else if str_eq(m, "05") {
        String::from_str("May")
    } else if str_eq(m, "06") {
        String::from_str("Jun")
    } else if str_eq(m, "07") {
        String::from_str("Jul")
    } else if str_eq(m, "08") {
        String::from_str("Aug")
    } else if str_eq(m, "09") {
        String::from_str("Sep")
    } else if str_eq(m, "10") {
        String::from_str("Oct")
    } else if str_eq(m, "11") {
        String::from_str("Nov")
    } else if str_eq(m, "12") {
        String::from_str("Dec")
    } else {
        m.to_owned()
    }
}

/// `Mon DD, YYYY` from the date part (the first 10 bytes) of an ISO 8601
/// time; text that is shorter or not split in three by `-` is shown as is.
pub open spec fn short_date_spec(iso: Seq<char>) -> Seq<char> {
    if utf8_len(iso) < 10 {
        iso
    } else {
        let parts = split_on(prefix_within(iso, 10), '-');
        if parts.len() == 3 {
            month_name(parts[1]) + seq![' '] + parts[2] + ", "@ + parts[0]
        } else {
            iso
        }
    }
}

proof fn lemma_prefix_step(s: Seq<char>, i: int, n: nat)
    requires
        0 <= i < s.len(),
        utf8_width(s[i]) <= n,
    ensures
        prefix_within(s.subrange(i, s.len() as int), n) == seq![s[i]] + prefix_within(
            s.subrange(i + 1, s.len() as int),
            (n - utf8_width(s[i])) as nat,
        ),
{
    let t = s.subrange(i, s.len() as int);
    assert(t[0] == s[i]);
    assert(t.drop_first() =~= s.subrange(i + 1, s.len() as int));
}

proof fn lemma_utf8_len_push(s: Seq<char>, c: char)
    ensures
        utf8_len(s.push(c)) == utf8_len(s) + utf8_width(c),
{
    assert(s.push(c).drop_last() =~= s);
}

proof fn lemma_utf8_len_prefix_le(s: Seq<char>, k: int)
    requires
        0 <= k <= s.len(),
    ensures
        utf8_len(s.subrange(0, k)) <= utf8_len(s),
    decreases s.len() - k,
{
    if k < s.len() {
        lemma_utf8_len_prefix_le(s, k + 1);
        assert(s.subrange(0, k + 1) =~= s.subrange(0, k).push(s[k]));
        lemma_utf8_len_push(s.subrange(0, k), s[k]);
    } else {
        assert(s.subrange(0, k) =~= s);
    }
}

/// A note's date in the list.
pub fn format_short_date(iso: &str) -> (r: String)
    requires
        utf8_len(iso@) < 10 || utf8_len(prefix_within(iso@, 10)) == 10,
    ensures
        r@ == short_date_spec(iso@),
{
    let v = chars_of(iso);
    let mut i: usize = 0;
    let mut used: u32 = 0;
    assert(v@.subrange(0, v@.len() as int) =~= v@);
    assert(v@.subrange(0, 0) =~= Seq::<char>::empty());
    while i < v.len() && used < 10
        invariant
            i <= v@.len(),
            v@ == iso@,
            used == utf8_len(v@.subrange(0, i as int)),
            used <= 13,
            used <= 10 ==> prefix_within(v@, 10) == v@.subrange(0, i as int) + prefix_within(
                v@.subrange(i as int, v@.len() as int),
                (10 - used) as nat,
            ),
            used > 10 ==> i > 0 && prefix_within(v@, 10) == v@.subrange(0, i - 1) && utf8_len(
                v@.subrange(0, i - 1),
            ) < 10,
        decreases v@.len() - i,
    {
        let c = v[i];
        let code: u32 = c as u32;
        let w: u32 = if code < 0x80 {
            1
        } else if code < 0x800 {
            2
        } else if code < 0x10000 {
            3
        } else {
            4
        };
        assert(w == utf8_width(c));
        proof {
            assert(v@.subrange(0, i + 1) =~= v@.subrange(0, i as int).push(c));
            lemma_utf8_len_push(v@.subrange(0, i as int), c);
            if used + w <= 10 {
                lemma_prefix_step(v@, i as int, (10 - used) as nat);
                assert(v@.subrange(0, i as int) + (seq![c] + prefix_within(
                    v@.subrange(i + 1, v@.len() as int),
                    (10 - used - w) as nat,
                )) =~= v@.subrange(0, i + 1) + prefix_within(
                    v@.subrange(i + 1, v@.len() as int),
                    (10 - used - w) as nat,
                ));
            } else {
                let t = v@.subrange(i as int, v@.len() as int);
                assert(t[0] == c);
                assert(prefix_within(t, (10 - used) as nat) =~= Seq::<char>::empty());
                assert(v@.subrange(0, i as int) + Seq::<char>::empty() =~= v@.subrange(
                    0,
                    i as int,
                ));
                assert(v@.subrange(0, i + 1 - 1) =~= v@.subrange(0, i as int));
            }
        }
        used = used + w;
        i = i + 1;
    }
    if used < 10 {
        proof {
            assert(v@.subrange(0, i as int) =~= v@);
        }
        return iso.to_owned();
    }
    proof {
        lemma_utf8_len_prefix_le(v@, i as int);
        if used > 10 {
            // Cutting at 10 bytes would split a character: excluded above.
            assert(utf8_len(prefix_within(v@, 10)) < 10);
            assert(false);
        }
        assert(used == 10);
        let rest = v@.subrange(i as int, v@.len() as int);
        assert(prefix_within(rest, 0) =~= Seq::<char>::empty());
        assert(prefix_within(v@, 10) =~= v@.subrange(0, i as int));
    }
    let mut parts: Vec<String> = Vec::new();
    parts.push(String::new());
    let mut k: usize = 0;
    proof {
        assert(parts@.map_values(|p: String| p@) =~= split_on(v@.subrange(0, 0), '-'));
    }
    while k < i
        invariant
            k <= i <= v@.len(),
            parts@.len() >= 1,
            parts@.map_values(|p: String| p@) == split_on(v@.subrange(0, k as int), '-'),
        decreases i - k,
    {
        let c = v[k];
        let ghost before = parts@.map_values(|p: String| p@);
        proof {
            assert(v@.subrange(0, k + 1).drop_last() =~= v@.subrange(0, k as int));
            assert(v@.subrange(0, k + 1).last() == c);
        }
        if c == '-' {
            parts.push(String::new());
            proof {
                assert(parts@.map_values(|p: String| p@) =~= before.push(Seq::<char>::empty()));
            }
        } else {
            let last = parts.len() - 1;
            let mut piece = parts[last].clone();
            piece.push(c);
            parts.set(last, piece);
            proof {
                assert(parts@.map_values(|p: String| p@) =~= before.update(
                    before.len() - 1,
                    before.last().push(c),
                ));
            }
        }
        k = k + 1;
    }
    if parts.len() != 3 {
        return iso.to_owned();
    }
    let mut out = month_name_exec(parts[1].as_str());
    out.push(' ');
    out.append(parts[2].as_str());
    out.append(", ");
    out.append(parts[0].as_str());
    proof {
        reveal_strlit(", ");
    }
    out
}

// ---------------------------------------------------------------------------
// Shortcuts and generated ids
// ---------------------------------------------------------------------------

/// Whether a key code is a modifier key.
pub open spec fn is_modifier_code_spec(code: Seq<char>) -> bool {
    code == "AltLeft"@ || code == "AltRight"@ || code == "ControlLeft"@ || code == "ControlRight"@
        || code == "MetaLeft"@ || code == "MetaRight"@ || code == "ShiftLeft"@ || code
        == "ShiftRight"@
}

/// Whether a key code is a modifier key (so a shortcut is not done yet).
pub fn is_modifier_code(code: &str) -> (r: bool)
    ensures
        r == is_modifier_code_spec(code@),
{
    str_eq(code, "AltLeft") || str_eq(code, "AltRight") || str_eq(code, "ControlLeft") || str_eq(
        code,
        "ControlRight",
    ) || str_eq(code, "MetaLeft") || str_eq(code, "MetaRight") || str_eq(code, "ShiftLeft")
        || str_eq(code, "ShiftRight")
}

/// The parts of a shortcut being typed, in order: the held modifiers, then
/// the key.
pub open spec fn shortcut_parts(ctrl: bool, alt: bool, shift: bool, meta: bool, key: Option<Seq<char>>) -> Seq<Seq<char>> {
    (if ctrl {
        seq!["Ctrl"@]
    } else {
        Seq::empty()
    }) + (if alt {
        seq!["Alt"@]
    } else {
        Seq::empty()
    }) + (if shift {
        seq!["Shift"@]
    } else {
        Seq::empty()
    }) + (if meta {
        seq!["Cmd"@]
    } else {
        Seq::empty()
    }) + (match key {
        Some(k) => seq![k],
        None => Seq::empty(),
    })
}

/// `items` joined by `+`.
pub open spec fn join_plus(items: Seq<Seq<char>>) -> Seq<char>
    decreases items.len(),
{
    if items.len() == 0 {
        Seq::empty()
    } else if items.len() == 1 {
        items[0]
    } else {
        join_plus(items.drop_last()) + seq!['+'] + items.last()
    }
}

fn push_part(out: &mut String, count: &mut usize, part: &str, ghost_parts: Ghost<Seq<Seq<char>>>)
    requires
        old(out)@ == join_plus(ghost_parts@),
        *old(count) == ghost_parts@.len(),
        *old(count) < usize::MAX,
    ensures
        final(out)@ == join_plus(ghost_parts@.push(part@)),
        *final(count) == ghost_parts@.len() + 1,
{
    let ghost p = ghost_parts@;
    if *count > 0 {
        out.push('+');
    }
    out.append(part);
    proof {
        assert(p.push(part@).drop_last() =~= p);
        if p.len() == 0 {
            assert(out@ =~= join_plus(p.push(part@)));
        } else {
            assert(out@ =~= join_plus(p.push(part@)));
        }
    }
    *count = *count + 1;
}

/// How a shortcut being typed is shown: `Ctrl+Alt+Shift+Cmd+Key`, with
/// only the held modifiers.
pub fn format_shortcut_preview(ctrl: bool, alt: bool, shift: bool, meta: bool, key_code: Option<String>) -> (r:
    String)
    ensures
        r@ == join_plus(
            shortcut_parts(
                ctrl,
                alt,
                shift,
                meta,
                match key_code {
                    Some(k) => Some(k@),
                    None => None,
                },
            ),
        ),
{
    let mut out = String::new();
    let mut count: usize = 0;
    let ghost mut parts: Seq<Seq<char>> = Seq::empty();
    if ctrl {
        push_part(&mut out, &mut count, "Ctrl", Ghost(parts));
        proof {
            parts = parts.push("Ctrl"@);
        }
    }
    if alt {
        push_part(&mut out, &mut count, "Alt", Ghost(parts));
        proof {
            parts = parts.push("Alt"@);
        }
    }
    if shift {
        push_part(&mut out, &mut count, "Shift", Ghost(parts));
        proof {
            parts = parts.push("Shift"@);
        }
    }
    if meta {
        push_part(&mut out, &mut count, "Cmd", Ghost(parts));
        proof {
            parts = parts.push("Cmd"@);
        }
    }
    match &key_code {
        Some(k) => {
            push_part(&mut out, &mut count, k.as_str(), Ghost(parts));
            proof {
                parts = parts.push(k@);
            }
        },
        None => {},
    }
    proof {
        assert(parts =~= shortcut_parts(
            ctrl,
            alt,
            shift,
            meta,
            match key_code {
                Some(k) => Some(k@),
                None => None,
            },
        ));
    }
    out
}

/// The lowercase hexadecimal digits of `n`.
pub open spec fn hex(n: nat) -> Seq<char>
    decreases n,
{
    if n < 16 {
        seq![hex_digit(n)]
    } else {
        hex(n / 16) + seq![hex_digit(n % 16)]
    }
}

/// The hexadecimal digit of `d < 16`.
pub open spec fn hex_digit(d: nat) -> char {
    if d < 10 {
        ((d + 48) as u8) as char
    } else {
        ((d + 87) as u8) as char
    }
}

fn push_hex(out: &mut String, n: u64)
    ensures
        final(out)@ == old(out)@ + hex(n as nat),
    decreases n,
{
    let d: u64 = n % 16;
    let c: char = if d < 10 {
        ((d as u8) + 48) as char
    } else {
        ((d as u8) + 87) as char
    };
    assert(c == hex_digit(d as nat));
    if n < 16 {
        out.push(c);
        assert(out@ =~= old(out)@ + hex(n as nat));
    } else {
        push_hex(out, n / 16);
        out.push(c);
        assert(out@ =~= old(out)@ + hex(n as nat));
    }
}

/// A new template's id: `tpl-`, the time in milliseconds and a random
/// number in hexadecimal.
pub fn generate_template_id(timestamp_ms: u64, random: u32) -> (r: String)
    ensures
        r@ == "tpl-"@ + decimal(timestamp_ms as nat) + seq!['-'] + hex(random as nat),
{
    let mut r = String::from_str("tpl-");
    push_decimal(&mut r, timestamp_ms);
    r.push('-');
    push_hex(&mut r, random as u64);
    proof {
        reveal_strlit("tpl-");
    }
    r
}

// ---------------------------------------------------------------------------
// Transcript labels
// ---------------------------------------------------------------------------

/// The status line while a capture runs.
pub fn listening_status_message(input_label: &str, elapsed_ms: u64) -> (r: String)
    ensures
        r@ == "Recording from "@ + input_label@
            + ". Stop recording to generate the transcript. Elapsed: "@ + clock_spec(elapsed_ms)
            + "."@,
{
    let mut r = String::from_str("Recording from ");
    r.append(input_label);
    r.append(". Stop recording to generate the transcript. Elapsed: ");
    r.append(format_duration(elapsed_ms).as_str());
    r.append(".");
    proof {
        reveal_strlit("Recording from ");
        reveal_strlit(". Stop recording to generate the transcript. Elapsed: ");
        reveal_strlit(".");
    }
    r
}

/// A transcript can be copied once listening stopped and there is text.
pub fn can_copy_transcript(is_listening: bool, text: &str) -> (r: bool)
    ensures
        r == (!is_listening && trim_spec(text@).len() > 0),
{
    !is_listening && !is_blank(text)
}

/// The label above a draft: a failed job leaves a partial draft.
pub fn draft_label(state: TranscriptionJobState, input_type: InputType) -> (r: &'static str)
    ensures
        r@ == if state == TranscriptionJobState::Failed {
            "Partial draft"@
        } else if input_type == InputType::File {
            "File draft"@
        } else {
            "Live draft"@
        },
{
    if state == TranscriptionJobState::Failed {
        "Partial draft"
    } else {
        match input_type {
            InputType::File => "File draft",
            InputType::Live => "Live draft",
        }
    }
}

/// The name a transcript goes by when its source has none.
pub open spec fn source_name_fallback_spec(input_type: InputType, profile: Option<LiveCaptureProfile>) -> Seq<char> {
    match input_type {
        InputType::File => "Imported file"@,
        InputType::Live => match profile {
            Some(LiveCaptureProfile::MicrophoneOnly) => "Live microphone note"@,
            Some(LiveCaptureProfile::MeetingMix) => "Live meeting capture"@,
            None => "Live recording"@,
        },
    }
}

/// The name a transcript goes by when its source has none.
pub fn source_name_fallback(input_type: InputType, live_capture_profile: Option<LiveCaptureProfile>) -> (r:
    String)
    ensures
        r@ == source_name_fallback_spec(input_type, live_capture_profile),
{
    match input_type {
        InputType::File => String::from_str("Imported file"),
        InputType::Live => match live_capture_profile {
            Some(LiveCaptureProfile::MicrophoneOnly) => String::from_str("Live microphone note"),
            Some(LiveCaptureProfile::MeetingMix) => String::from_str("Live meeting capture"),
            None => String::from_str("Live recording"),
        },
    }
}

/// The main label of a transcript: a file's name, or the kind of capture.
pub fn primary_source_label(source: &TranscriptionSource) -> (r: String)
    ensures
        r@ == match source.input_type {
            InputType::File => match source.source_name {
                Some(n) => n@,
                None => "Imported file"@,
            },
            InputType::Live => source_name_fallback_spec(InputType::Live, source.live_capture_profile),
        },
{
    match source.input_type {
        InputType::File => match &source.source_name {
            Some(n) => n.clone(),
            None => source_name_fallback(InputType::File, None),
        },
        InputType::Live => source_name_fallback(InputType::Live, source.live_capture_profile),
    }
}

/// A source name trimmed, if any is left.
pub fn normalized_source_name(source_name: Option<&str>) -> (r: Option<String>)
    ensures
        match source_name {
            Some(n) => if trim_spec(n@).len() > 0 {
                r matches Some(x) && x@ == trim_spec(n@)
            } else {
                r is None
            },
            None => r is None,
        },
{
    match source_name {
        Some(n) => {
            let t = trim(n);
            if t.as_str().unicode_len() > 0 {
                Some(t)
            } else {
                None
            }
        },
        None => None,
    }
}

/// The input a live transcript was captured from, when it has a name.
pub fn supporting_input_label(source: &TranscriptionSource) -> (r: Option<String>)
    ensures
        source.input_type != InputType::Live ==> r is None,
        source.input_type == InputType::Live ==> match source.source_name {
            Some(n) => if trim_spec(n@).len() > 0 {
                r matches Some(x) && x@ == "Input: "@ + trim_spec(n@)
            } else {
                r is None
            },
            None => r is None,
        },
{
    if source.input_type != InputType::Live {
        return None;
    }
    let name = match &source.source_name {
        Some(n) => normalized_source_name(Some(n.as_str())),
        None => None,
    };
    match name {
        Some(label) => {
            let mut r = String::from_str("Input: ");
            r.append(label.as_str());
            proof {
                reveal_strlit("Input: ");
            }
            Some(r)
        },
        None => None,
    }
}

/// A live job just finished with a live transcript.
pub open spec fn live_success(job_status: TranscriptionJobStatus, transcript: Option<TranscriptResult>) -> bool {
    job_status.state == TranscriptionJobState::Succeeded && job_status.input_type == InputType::Live
        && (transcript matches Some(t) && t.source.input_type == InputType::Live)
}

fn live_success_exec(job_status: &TranscriptionJobStatus, transcript: Option<&TranscriptResult>) -> (r:
    bool)
    ensures
        r == live_success(
            *job_status,
            match transcript {
                Some(t) => Some(*t),
                None => None,
            },
        ),
{
    job_status.state == TranscriptionJobState::Succeeded && job_status.input_type == InputType::Live
        && match transcript {
        Some(t) => t.source.input_type == InputType::Live,
        None => false,
    }
}

/// Whether to open the transcript screen for a live completion: once per
/// completion.
pub fn should_navigate_to_live_transcript(
    completion_nonce: u64,
    last_navigated_completion_nonce: Option<u64>,
    job_status: &TranscriptionJobStatus,
    transcript: Option<&TranscriptResult>,
) -> (r: bool)
    ensures
        r == (last_navigated_completion_nonce != Some(completion_nonce) && live_success(
            *job_status,
            match transcript {
                Some(t) => Some(*t),
                None => None,
            },
        )),
{
    let fresh = match last_navigated_completion_nonce {
        Some(n) => n != completion_nonce,
        None => true,
    };
    fresh && live_success_exec(job_status, transcript)
}

/// Whether to scroll to a finished live transcript: on the active screen,
/// after listening stopped, once per completion.
pub fn should_focus_live_transcript(
    active: bool,
    is_listening: bool,
    job_status: &TranscriptionJobStatus,
    transcript: Option<&TranscriptResult>,
    completion_nonce: u64,
    last_focused_completion_nonce: Option<u64>,
) -> (r: bool)
    ensures
        r == (active && !is_listening && last_focused_completion_nonce != Some(completion_nonce)
            && live_success(
            *job_status,
            match transcript {
                Some(t) => Some(*t),
                None => None,
            },
        )),
{
    let fresh = match last_focused_completion_nonce {
        Some(n) => n != completion_nonce,
        None => true,
    };
    active && !is_listening && fresh && live_success_exec(job_status, transcript)
}

/// Which completion is highlighted; the highlight of a completion clears
/// when its timer fires, unless a newer one took its place.
#[derive(Debug, Clone, Copy, PartialEq, Eq)]
pub struct CompletionHighlight {
    pub highlighted_completion_nonce: Option<u64>,
}

impl CompletionHighlight {
    /// Highlights a completion (the app then starts its timer).
    pub fn trigger(&mut self, completion_nonce: u64)
        ensures
            final(self).highlighted_completion_nonce == Some(completion_nonce),
    {
        self.highlighted_completion_nonce = Some(completion_nonce);
    }

    /// The timer of `completion_nonce` fired.
    pub fn expire(&mut self, completion_nonce: u64)
        ensures
            old(self).highlighted_completion_nonce == Some(completion_nonce)
                ==> final(self).highlighted_completion_nonce is None,
            old(self).highlighted_completion_nonce != Some(completion_nonce) ==> *final(self)
                == *old(self),
    {
        match self.highlighted_completion_nonce {
            Some(n) => {
                if n == completion_nonce {
                    self.highlighted_completion_nonce = None;
                }
            },
            None => {},
        }
    }
}

/// The title of the note saved for a finished transcript: its source (or
/// what kind of input it was) and the local date.
pub fn transcription_note_title(
    source_name: Option<&str>,
    input_type: InputType,
    year: u32,
    month: u32,
    day: u32,
) -> (r: String)
    ensures
        r@ == "Transcription - "@ + (match source_name {
            Some(n) => n@,
            None => match input_type {
                InputType::Live => "Live recording"@,
                InputType::File => "Unknown file"@,
            },
        }) + " - "@ + decimal(year as nat) + seq!['-'] + padded_decimal(month as nat, 2) + seq!['-']
            + padded_decimal(day as nat, 2),
{
    let mut r = String::from_str("Transcription - ");
    match source_name {
        Some(n) => r.append(n),
        None => match input_type {
            InputType::Live => r.append("Live recording"),
            InputType::File => r.append("Unknown file"),
        },
    }
    r.append(" - ");
    push_decimal(&mut r, year as u64);
    r.push('-');
    push_padded(&mut r, month as u64, 2);
    r.push('-');
    push_padded(&mut r, day as u64, 2);
    proof {
        reveal_strlit("Transcription - ");
        reveal_strlit(" - ");
    }
    r
}

} // verus!

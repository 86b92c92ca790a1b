//! The transcription screen: what it shows about the provider and model,
//! the checks before a file import, the job status card, and copying the
//! transcript.  Loading settings and models, the file dialog, running the
//! transcription and the clipboard belong to the app, which hands their
//! answers back here.
use vstd::prelude::*;

use crate::models::{
    ApiModelDescriptor, AppSettings, InputType, LocalModelDescriptor, ProviderMode,
    TranscriptResult, TranscriptionJobState,
};
use crate::settings::{default_app_settings, is_default_app_settings};
use crate::settings_screen::{join_problems, join_with, problem, push_problem};
use crate::text::{is_blank, str_eq, trim, trim_spec};
use crate::transcript_text::{file_name_from_path, file_name_spec};
use crate::transcription_job::{start_message_spec, TranscriptionController};

verus! {

/// The first listed local model with id `id`.
pub open spec fn first_local_model(models: Seq<LocalModelDescriptor>, id: Seq<char>) -> Option<
    LocalModelDescriptor,
>
    decreases models.len(),
{
    if models.len() == 0 {
        None
    } else if models[0].id@ == id {
        Some(models[0])
    } else {
        first_local_model(models.drop_first(), id)
    }
}

/// The label of the first listed API model with id `id`, else `fallback`.
pub open spec fn first_api_label(models: Seq<ApiModelDescriptor>, id: Seq<char>, fallback: Seq<char>) -> Seq<
    char,
>
    decreases models.len(),
{
    if models.len() == 0 {
        fallback
    } else if models[0].id@ == id {
        models[0].label@
    } else {
        first_api_label(models.drop_first(), id, fallback)
    }
}

/// The model the screen names: the local model's label (its id when it is
/// not listed), or the API model's label, the custom model name, or
/// `Custom model` when that name is blank.
pub open spec fn model_label_spec(
    settings: AppSettings,
    local: Seq<LocalModelDescriptor>,
    api: Seq<ApiModelDescriptor>,
) -> Seq<char> {
    match settings.provider_mode {
        ProviderMode::Local => match first_local_model(local, settings.local_model_id@) {
            Some(m) => m.label@,
            None => settings.local_model_id@,
        },
        ProviderMode::Api => if settings.api_model_id@ == "custom"@ {
            if trim_spec(settings.api_custom_model_name@).len() == 0 {
                "Custom model"@
            } else {
                trim_spec(settings.api_custom_model_name@)
            }
        } else {
            first_api_label(api, settings.api_model_id@, settings.api_model_id@)
        },
    }
}

/// Whether the selected local model is listed and downloaded.
pub open spec fn model_ready_spec(settings: AppSettings, local: Seq<LocalModelDescriptor>) -> bool {
    match first_local_model(local, settings.local_model_id@) {
        Some(m) => m.downloaded,
        None => false,
    }
}

/// Whether transcription can run: the local model is downloaded, or an API
/// key is stored.
pub open spec fn provider_ready_spec(settings: AppSettings, local: Seq<LocalModelDescriptor>) -> bool {
    match settings.provider_mode {
        ProviderMode::Local => model_ready_spec(settings, local),
        ProviderMode::Api => settings.api_key_present,
    }
}

/// The message when a file import is refused before the file is picked.
pub open spec fn import_refusal(settings: AppSettings, local: Seq<LocalModelDescriptor>) -> Option<
    Seq<char>,
> {
    match settings.provider_mode {
        ProviderMode::Local => if model_ready_spec(settings, local) {
            None
        } else {
            Some(
                "The selected Whisper model is not downloaded yet. Download it from Settings and try again."@,
            )
        },
        ProviderMode::Api => if settings.api_key_present {
            None
        } else {
            Some("No API key configured. Add your API key in Settings before importing a file."@)
        },
    }
}

/// What the transcription screen holds.
#[derive(Debug, Clone)]
pub struct TranscribeScreenState {
    pub settings: AppSettings,
    pub local_models: Vec<LocalModelDescriptor>,
    pub api_models: Vec<ApiModelDescriptor>,
    pub selected_file: Option<String>,
    pub load_error: Option<String>,
    pub is_loading: bool,
}

impl TranscribeScreenState {
    /// Loading, with the default settings and no models listed.
    pub fn new() -> (r: Self)
        ensures
            is_default_app_settings(r.settings),
            r.local_models@.len() == 0,
            r.api_models@.len() == 0,
            r.selected_file is None,
            r.load_error is None,
            r.is_loading,
    {
        TranscribeScreenState {
            settings: default_app_settings(),
            local_models: Vec::new(),
            api_models: Vec::new(),
            selected_file: None,
            load_error: None,
            is_loading: true,
        }
    }

    /// A load starts; the old error is cleared.
    pub fn begin_load(&mut self)
        ensures
            final(self).is_loading,
            final(self).load_error is None,
            final(self).settings == old(self).settings,
            final(self).selected_file == old(self).selected_file,
    {
        self.is_loading = true;
        self.load_error = None;
    }

    /// The load answers: when all three arrived they are shown; otherwise
    /// nothing changes but the failures, joined into one error.
    pub fn finish_load(
        &mut self,
        settings: Result<AppSettings, String>,
        models: Result<Vec<LocalModelDescriptor>, String>,
        api: Result<Vec<ApiModelDescriptor>, String>,
    )
        ensures
            !final(self).is_loading,
            (settings is Ok && models is Ok && api is Ok) ==> final(self).settings == settings->Ok_0
                && final(self).local_models == models->Ok_0 && final(self).api_models == api->Ok_0
                && final(self).load_error == old(self).load_error,
            !(settings is Ok && models is Ok && api is Ok) ==> final(self).settings == old(self).settings && final(self).local_models == old(self).local_models
                && final(self).api_models == old(self).api_models && (final(self).load_error matches Some(
                m,
            ) && m@ == join_with(
                problem("settings"@, settings) + problem("local models"@, models) + problem(
                    "api models"@,
                    api,
                ),
                " | "@,
            )),
            final(self).selected_file == old(self).selected_file,
    {
        let mut problems: Vec<String> = Vec::new();
        proof {
            assert(problems@.map_values(|s: String| s@) =~= Seq::<Seq<char>>::empty());
        }
        push_problem(&mut problems, "settings", &settings);
        push_problem(&mut problems, "local models", &models);
        push_problem(&mut problems, "api models", &api);
        proof {
            assert(problems@.map_values(|s: String| s@) =~= problem("settings"@, settings) + problem(
                "local models"@,
                models,
            ) + problem("api models"@, api));
        }
        match (settings, models, api) {
            (Ok(s), Ok(m), Ok(a)) => {
                self.settings = s;
                self.local_models = m;
                self.api_models = a;
            },
            (_, _, _) => {
                self.load_error = Some(join_problems(&problems));
            },
        }
        self.is_loading = false;
    }

    /// The position of the selected local model in the list.
    fn selected_model_index(&self) -> (r: Option<usize>)
        ensures
            r is None ==> first_local_model(self.local_models@, self.settings.local_model_id@) is None,
            r matches Some(i) ==> i < self.local_models@.len() && first_local_model(
                self.local_models@,
                self.settings.local_model_id@,
            ) == Some(self.local_models@[i as int]),
    {
        let id = self.settings.local_model_id.as_str();
        let mut i: usize = 0;
        assert(self.local_models@.subrange(0, self.local_models@.len() as int) =~= self.local_models@);
        while i < self.local_models.len()
            invariant
                i <= self.local_models@.len(),
                id@ == self.settings.local_model_id@,
                first_local_model(self.local_models@, id@) == first_local_model(
                    self.local_models@.subrange(i as int, self.local_models@.len() as int),
                    id@,
                ),
            decreases self.local_models@.len() - i,
        {
            let ghost rest = self.local_models@.subrange(i as int, self.local_models@.len() as int);
            assert(rest.drop_first() =~= self.local_models@.subrange(i + 1, self.local_models@.len() as int));
            assert(rest[0] == self.local_models@[i as int]);
            if str_eq(self.local_models[i].id.as_str(), id) {
                return Some(i);
            }
            i = i + 1;
        }
        None
    }

    /// Whether the selected local model is downloaded.
    pub fn model_ready(&self) -> (r: bool)
        ensures
            r == model_ready_spec(self.settings, self.local_models@),
    {
        match self.selected_model_index() {
            Some(i) => self.local_models[i].downloaded,
            None => false,
        }
    }

    /// Whether transcription can run with the current provider.
    pub fn provider_ready(&self) -> (r: bool)
        ensures
            r == provider_ready_spec(self.settings, self.local_models@),
    {
        match self.settings.provider_mode {
            ProviderMode::Local => self.model_ready(),
            ProviderMode::Api => self.settings.api_key_present,
        }
    }

    /// The model the screen names.
    pub fn model_label(&self) -> (r: String)
        ensures
            r@ == model_label_spec(self.settings, self.local_models@, self.api_models@),
    {
        match self.settings.provider_mode {
            ProviderMode::Local => match self.selected_model_index() {
                Some(i) => self.local_models[i].label.clone(),
                None => self.settings.local_model_id.clone(),
            },
            ProviderMode::Api => {
                if str_eq(self.settings.api_model_id.as_str(), "custom") {
                    let name = trim(self.settings.api_custom_model_name.as_str());
                    if name.as_str().unicode_len() == 0 {
                        String::from_str("Custom model")
                    } else {
                        name
                    }
                } else {
                    let id = self.settings.api_model_id.as_str();
                    let mut i: usize = 0;
                    assert(self.api_models@.subrange(0, self.api_models@.len() as int) =~= self.api_models@);
                    while i < self.api_models.len()
                        invariant
                            i <= self.api_models@.len(),
                            id@ == self.settings.api_model_id@,
                            self.settings.provider_mode == ProviderMode::Api,
                            self.settings.api_model_id@ != "custom"@,
                            first_api_label(self.api_models@, id@, id@) == first_api_label(
                                self.api_models@.subrange(i as int, self.api_models@.len() as int),
                                id@,
                                id@,
                            ),
                        decreases self.api_models@.len() - i,
                    {
                        let ghost rest = self.api_models@.subrange(i as int, self.api_models@.len() as int);
                        assert(rest.drop_first() =~= self.api_models@.subrange(i + 1, self.api_models@.len() as int));
                        assert(rest[0] == self.api_models@[i as int]);
                        if str_eq(self.api_models[i].id.as_str(), id) {
                            return self.api_models[i].label.clone();
                        }
                        i = i + 1;
                    }
                    id.to_owned()
                }
            },
        }
    }

    /// The name of the selected file, or a placeholder.
    pub fn selected_file_label(&self) -> (r: String)
        ensures
            r@ == match self.selected_file {
                Some(p) => file_name_spec(p@),
                None => "No file selected yet"@,
            },
    {
        match &self.selected_file {
            Some(p) => file_name_from_path(p.as_str()),
            None => String::from_str("No file selected yet"),
        }
    }

    /// The import button: nothing happens while recording or transcribing;
    /// otherwise the old job feedback is cleared and the provider checked.
    /// Returns whether to open the file dialog.
    pub fn begin_file_import(&self, is_listening: bool, controller: &mut TranscriptionController) -> (r: bool)
        ensures
            (is_listening || old(controller).is_transcribing) ==> !r && *final(controller) == *old(controller),
            !(is_listening || old(controller).is_transcribing) ==> r == (import_refusal(
                self.settings,
                self.local_models@,
            ) is None),
            !(is_listening || old(controller).is_transcribing) ==> (import_refusal(
                self.settings,
                self.local_models@,
            ) matches Some(m) ==> final(controller).job_status.state == TranscriptionJobState::Failed
                && final(controller).job_status.input_type == InputType::File && (final(controller).job_status.message matches Some(x) && x@ == m) && !final(controller).is_transcribing),
            !(is_listening || old(controller).is_transcribing) && import_refusal(
                self.settings,
                self.local_models@,
            ) is None ==> final(controller).job_status.message is None
                && final(controller).transcript == old(controller).transcript,
    {
        if is_listening || controller.is_transcribing {
            return false;
        }
        controller.reset_job_feedback();
        match self.settings.provider_mode {
            ProviderMode::Local => {
                if !self.model_ready() {
                    controller.set_preflight_failure(
                        InputType::File,
                        "The selected Whisper model is not downloaded yet. Download it from Settings and try again.".to_owned(),
                    );
                    return false;
                }
            },
            ProviderMode::Api => {
                if !self.settings.api_key_present {
                    controller.set_preflight_failure(
                        InputType::File,
                        "No API key configured. Add your API key in Settings before importing a file.".to_owned(),
                    );
                    return false;
                }
            },
        }
        true
    }

    /// The file dialog answered: a picked file is remembered and its job
    /// starts (the path to transcribe is returned); a dialog failure is
    /// shown as a failed job; a dismissed dialog changes nothing.
    pub fn finish_file_pick(
        &mut self,
        picked: Result<Option<String>, String>,
        controller: &mut TranscriptionController,
    ) -> (r: Option<String>)
        ensures
            picked matches Ok(Some(p)) ==> r == Some(p) && final(self).selected_file == Some(p)
                && final(controller).is_transcribing && final(controller).job_status.state
                == TranscriptionJobState::Running && final(controller).job_status.input_type
                == InputType::File && (final(controller).job_status.source_name matches Some(n)
                && n@ == file_name_spec(p@)) && (final(controller).job_status.message matches Some(
                m,
            ) && m@ == start_message_spec(file_name_spec(p@))),
            picked matches Ok(None) ==> r is None && *final(self) == *old(self) && *final(controller)
                == *old(controller),
            picked matches Err(e) ==> r is None && *final(self) == *old(self)
                && final(controller).job_status.state == TranscriptionJobState::Failed
                && final(controller).job_status.message == Some(e) && !final(controller).is_transcribing,
    {
        match picked {
            Err(e) => {
                controller.set_preflight_failure(InputType::File, e);
                None
            },
            Ok(None) => None,
            Ok(Some(path)) => {
                let name = file_name_from_path(path.as_str());
                self.selected_file = Some(path.clone());
                controller.start_file_job(name);
                Some(path)
            },
        }
    }
}

/// The transcription of an imported file finished: the result completes
/// the job, an error fails it under the file's name.
pub fn finish_file_transcription(
    controller: &mut TranscriptionController,
    result: Result<TranscriptResult, String>,
    file_name: String,
)
    ensures
        result matches Ok(t) ==> final(controller).transcript == Some(t)
            && final(controller).job_status.state == TranscriptionJobState::Succeeded,
        result matches Err(e) ==> final(controller).transcript is None
            && final(controller).job_status.state == TranscriptionJobState::Failed
            && final(controller).job_status.input_type == InputType::File
            && final(controller).job_status.source_name == Some(file_name)
            && final(controller).job_status.message == Some(e),
        !final(controller).is_transcribing,
{
    match result {
        Ok(t) => controller.complete_job(t),
        Err(e) => controller.fail_job(InputType::File, Some(file_name), e),
    }
}

// ---------------------------------------------------------------------------
// Labels of the screen
// ---------------------------------------------------------------------------

/// The provider the screen names.
pub fn provider_label(mode: ProviderMode) -> (r: &'static str)
    ensures
        r@ == match mode {
            ProviderMode::Local => "Local Whisper"@,
            ProviderMode::Api => "OpenAI-compatible API"@,
        },
{
    match mode {
        ProviderMode::Local => "Local Whisper",
        ProviderMode::Api => "OpenAI-compatible API",
    }
}

/// The heading of the model card.
pub fn model_heading(mode: ProviderMode) -> (r: &'static str)
    ensures
        r@ == match mode {
            ProviderMode::Local => "Whisper model"@,
            ProviderMode::Api => "API model"@,
        },
{
    match mode {
        ProviderMode::Local => "Whisper model",
        ProviderMode::Api => "API model",
    }
}

/// The heading of the readiness card.
pub fn readiness_heading(mode: ProviderMode) -> (r: &'static str)
    ensures
        r@ == match mode {
            ProviderMode::Local => "Model status"@,
            ProviderMode::Api => "API status"@,
        },
{
    match mode {
        ProviderMode::Local => "Model status",
        ProviderMode::Api => "API status",
    }
}

/// The readiness card's value.
pub fn readiness_label(mode: ProviderMode, ready: bool) -> (r: &'static str)
    ensures
        ready ==> r@ == "Ready"@,
        !ready ==> r@ == match mode {
            ProviderMode::Local => "Download required"@,
            ProviderMode::Api => "API key required"@,
        },
{
    if ready {
        "Ready"
    } else {
        match mode {
            ProviderMode::Local => "Download required",
            ProviderMode::Api => "API key required",
        }
    }
}

/// Which files can be imported with each provider.
pub fn import_hint(mode: ProviderMode) -> (r: &'static str)
    ensures
        r@ == match mode {
            ProviderMode::Local => "Start a live recording from the selected audio input, or import a local audio file. Supported import formats: WAV, MP3, FLAC, OGG, and M4A."@,
            ProviderMode::Api => "Start a live recording from the selected audio input, or import a local audio file. Supported import formats: WAV, MP3, M4A, MP4, and WebM."@,
        },
{
    match mode {
        ProviderMode::Local => "Start a live recording from the selected audio input, or import a local audio file. Supported import formats: WAV, MP3, FLAC, OGG, and M4A.",
        ProviderMode::Api => "Start a live recording from the selected audio input, or import a local audio file. Supported import formats: WAV, MP3, M4A, MP4, and WebM.",
    }
}

/// The import button's label.
pub fn file_button_label(is_transcribing: bool) -> (r: &'static str)
    ensures
        r@ == if is_transcribing {
            "Transcribing..."@
        } else {
            "Choose audio file"@
        },
{
    if is_transcribing {
        "Transcribing..."
    } else {
        "Choose audio file"
    }
}

/// The live capture button's label.
pub fn live_button_label(is_listening: bool) -> (r: &'static str)
    ensures
        r@ == if is_listening {
            "Stop recording"@
        } else {
            "Start live capture"@
        },
{
    if is_listening {
        "Stop recording"
    } else {
        "Start live capture"
    }
}

/// The live capture button is disabled while a transcription runs or
/// before the recorder is ready.
pub fn live_button_disabled(is_transcribing: bool, live_ready: bool) -> (r: bool)
    ensures
        r == (is_transcribing || !live_ready),
{
    is_transcribing || !live_ready
}

/// The import button is disabled while recording or transcribing.
pub fn file_button_disabled(is_listening: bool, is_transcribing: bool) -> (r: bool)
    ensures
        r == (is_listening || is_transcribing),
{
    is_listening || is_transcribing
}

// ---------------------------------------------------------------------------
// The job status card
// ---------------------------------------------------------------------------

/// The style class of the job status card.
pub fn job_status_class(is_listening: bool, state: TranscriptionJobState) -> (r: &'static str)
    ensures
        r@ == if is_listening {
            "job-status-panel running"@
        } else {
            match state {
                TranscriptionJobState::Idle => "job-status-panel"@,
                TranscriptionJobState::Running => "job-status-panel running"@,
                TranscriptionJobState::Succeeded => "job-status-panel success"@,
                TranscriptionJobState::Failed => "job-status-panel error"@,
            }
        },
{
    if is_listening {
        "job-status-panel running"
    } else {
        match state {
            TranscriptionJobState::Idle => "job-status-panel",
            TranscriptionJobState::Running => "job-status-panel running",
            TranscriptionJobState::Succeeded => "job-status-panel success",
            TranscriptionJobState::Failed => "job-status-panel error",
        }
    }
}

/// The job status card's heading.
pub fn job_status_label(is_listening: bool, state: TranscriptionJobState) -> (r: &'static str)
    ensures
        r@ == if is_listening {
            "Listening"@
        } else {
            match state {
                TranscriptionJobState::Idle => "Ready"@,
                TranscriptionJobState::Running => "Transcribing"@,
                TranscriptionJobState::Succeeded => "Completed"@,
                TranscriptionJobState::Failed => "Needs attention"@,
            }
        },
{
    if is_listening {
        "Listening"
    } else {
        match state {
            TranscriptionJobState::Idle => "Ready",
            TranscriptionJobState::Running => "Transcribing",
            TranscriptionJobState::Succeeded => "Completed",
            TranscriptionJobState::Failed => "Needs attention",
        }
    }
}

/// The job status card's text: the capture while listening, else the
/// job's message or an invitation to start.
pub fn job_status_text(is_listening: bool, live_label: &str, elapsed_ms: u64, message: &Option<String>) -> (r: String)
    ensures
        is_listening ==> r@ == "Recording from "@ + live_label@
            + ". Stop recording to generate the transcript. Elapsed: "@
            + crate::live::clock_spec(elapsed_ms) + "."@,
        !is_listening ==> r@ == match message {
            Some(m) => m@,
            None => "Choose a file or start live capture to begin a transcription job."@,
        },
{
    if is_listening {
        crate::display::listening_status_message(live_label, elapsed_ms)
    } else {
        match message {
            Some(m) => m.clone(),
            None => String::from_str("Choose a file or start live capture to begin a transcription job."),
        }
    }
}

// ---------------------------------------------------------------------------
// The transcript panel
// ---------------------------------------------------------------------------

/// What the transcript panel shows.
#[derive(Debug, Clone, PartialEq, Eq)]
pub enum TranscriptPanelView {
    /// The finished transcript.
    Result,
    /// The draft received so far.
    Partial,
    /// A placeholder or failure text.
    Message(String),
}

/// The finished transcript, else the draft, else the failure message (or a
/// generic one) after a failure, else the waiting text.
pub fn transcript_panel_view(controller: &TranscriptionController) -> (r: TranscriptPanelView)
    ensures
        controller.transcript is Some ==> r == TranscriptPanelView::Result,
        controller.transcript is None && controller.partial_text@.len() > 0 ==> r
            == TranscriptPanelView::Partial,
        controller.transcript is None && controller.partial_text@.len() == 0 ==> (r matches TranscriptPanelView::Message(
            m,
        ) && m@ == if controller.job_status.state == TranscriptionJobState::Failed {
            match controller.job_status.message {
                Some(x) => x@,
                None => "Transcription failed."@,
            }
        } else {
            "Your transcript will appear here once audio finishes processing."@
        }),
{
    if controller.transcript.is_some() {
        return TranscriptPanelView::Result;
    }
    if controller.partial_text.as_str().unicode_len() > 0 {
        return TranscriptPanelView::Partial;
    }
    if controller.job_status.state == TranscriptionJobState::Failed {
        match &controller.job_status.message {
            Some(m) => TranscriptPanelView::Message(m.clone()),
            None => TranscriptPanelView::Message(String::from_str("Transcription failed.")),
        }
    } else {
        TranscriptPanelView::Message(
            String::from_str("Your transcript will appear here once audio finishes processing."),
        )
    }
}

/// The failure shown under a partial draft.
pub fn partial_failure_message(controller: &TranscriptionController) -> (r: Option<String>)
    ensures
        controller.job_status.state != TranscriptionJobState::Failed ==> r is None,
        controller.job_status.state == TranscriptionJobState::Failed ==> (r matches Some(m) && m@
            == match controller.job_status.message {
            Some(x) => x@,
            None => "Transcription failed after producing a partial draft."@,
        }),
{
    if controller.job_status.state != TranscriptionJobState::Failed {
        return None;
    }
    match &controller.job_status.message {
        Some(m) => Some(m.clone()),
        None => Some(String::from_str("Transcription failed after producing a partial draft.")),
    }
}

/// `Progress: N%` while the progress is known.
pub fn progress_chip(progress_percent: Option<i32>) -> (r: Option<String>)
    ensures
        progress_percent is None ==> r is None,
        progress_percent matches Some(p) ==> (r matches Some(t) && t@ == "Progress: "@ + (if p < 0 {
            seq!['-'] + crate::text::decimal((-p) as nat)
        } else {
            crate::text::decimal(p as nat)
        }) + "%"@),
{
    match progress_percent {
        None => None,
        Some(p) => {
            let mut t = String::from_str("Progress: ");
            if p < 0 {
                t.push('-');
                let magnitude: u64 = (0i64 - (p as i64)) as u64;
                crate::text::push_decimal(&mut t, magnitude);
            } else {
                crate::text::push_decimal(&mut t, p as u64);
            }
            t.append("%");
            proof {
                reveal_strlit("Progress: ");
                reveal_strlit("%");
            }
            Some(t)
        },
    }
}

/// The duration chip of a transcript.
pub fn result_duration_label(duration_ms: Option<u64>) -> (r: String)
    ensures
        r@ == match duration_ms {
            Some(d) => crate::transcript_text::duration_label_spec(d),
            None => "Unknown duration"@,
        },
{
    match duration_ms {
        Some(d) => crate::transcript_text::format_duration_label(d),
        None => String::from_str("Unknown duration"),
    }
}

/// `start - end` of a segment.
pub fn segment_time_label(start_ms: i64, end_ms: i64) -> (r: String)
    ensures
        r@ == crate::transcript_text::timestamp_spec(start_ms) + " - "@
            + crate::transcript_text::timestamp_spec(end_ms),
{
    let mut r = crate::transcript_text::format_timestamp(start_ms);
    r.append(" - ");
    let end = crate::transcript_text::format_timestamp(end_ms);
    r.append(end.as_str());
    r
}

/// The text copied by the plain copy button: the transcript, else the
/// draft.
pub fn plain_copy_text(controller: &TranscriptionController) -> (r: String)
    ensures
        r@ == match controller.transcript {
            Some(t) => t.text@,
            None => controller.partial_text@,
        },
{
    match &controller.transcript {
        Some(t) => t.text.clone(),
        None => controller.partial_text.clone(),
    }
}

/// The text copied with timestamps: the transcript's segments (its text
/// when it has none), else the draft's.
pub fn timestamp_copy_text(controller: &TranscriptionController) -> (r: String)
    ensures
        r@ == match controller.transcript {
            Some(t) => if t.segments@.len() == 0 {
                trim_spec(t.text@)
            } else {
                crate::transcript_text::segment_lines(t.segments@)
            },
            None => if controller.partial_segments@.len() == 0 {
                trim_spec(controller.partial_text@)
            } else {
                crate::transcript_text::segment_lines(controller.partial_segments@)
            },
        },
{
    match &controller.transcript {
        Some(t) => crate::transcript_text::format_transcript_with_timestamps(
            t.segments.as_slice(),
            t.text.as_str(),
        ),
        None => crate::transcript_text::format_transcript_with_timestamps(
            controller.partial_segments.as_slice(),
            controller.partial_text.as_str(),
        ),
    }
}

/// The post-processing button shows for a finished transcript when no
/// capture or transcription runs.
pub fn show_postprocess_button(is_listening: bool, controller: &TranscriptionController) -> (r: bool)
    ensures
        r == (!is_listening && !controller.is_transcribing && controller.transcript is Some),
{
    !is_listening && !controller.is_transcribing && controller.transcript.is_some()
}

/// Which copy button was used.
#[derive(Debug, Clone, Copy, PartialEq, Eq, Structural)]
pub enum CopyTarget {
    Plain,
    Timestamps,
}

/// The feedback of the transcript's copy buttons: which one was used last
/// and whether it failed.
#[derive(Debug, Clone, Copy, PartialEq, Eq, Structural)]
pub struct CopyFeedback {
    pub target: Option<CopyTarget>,
    pub error: bool,
}

impl CopyFeedback {
    /// No feedback.
    pub fn new() -> (r: Self)
        ensures
            r.target is None,
            !r.error,
    {
        CopyFeedback { target: None, error: false }
    }

    /// The copied texts changed: the feedback is cleared.
    pub fn reset(&mut self)
        ensures
            final(self).target is None,
            !final(self).error,
    {
        self.target = None;
        self.error = false;
    }

    /// A copy button was pressed with `text`: a blank text fails at once;
    /// otherwise the text to put on the clipboard is returned.
    pub fn request(&mut self, target: CopyTarget, text: String) -> (r: Option<String>)
        ensures
            trim_spec(text@).len() == 0 ==> r is None && final(self).target == Some(target)
                && final(self).error,
            trim_spec(text@).len() > 0 ==> r == Some(text) && *final(self) == *old(self),
    {
        if is_blank(text.as_str()) {
            self.error = true;
            self.target = Some(target);
            return None;
        }
        Some(text)
    }

    /// The clipboard answered.
    pub fn finish(&mut self, target: CopyTarget, copied: bool)
        ensures
            final(self).target == Some(target),
            final(self).error == !copied,
    {
        self.error = !copied;
        self.target = Some(target);
    }

    /// The label of a copy button.
    pub fn label(&self, target: CopyTarget) -> (r: &'static str)
        ensures
            self.target != Some(target) ==> r@ == match target {
                CopyTarget::Plain => "Copy text"@,
                CopyTarget::Timestamps => "Copy with timestamps"@,
            },
            self.target == Some(target) && self.error ==> r@ == "Copy failed"@,
            self.target == Some(target) && !self.error ==> r@ == match target {
                CopyTarget::Plain => "Copied text"@,
                CopyTarget::Timestamps => "Copied with timestamps"@,
            },
    {
        if self.target == Some(target) {
            if self.error {
                "Copy failed"
            } else {
                match target {
                    CopyTarget::Plain => "Copied text",
                    CopyTarget::Timestamps => "Copied with timestamps",
                }
            }
        } else {
            match target {
                CopyTarget::Plain => "Copy text",
                CopyTarget::Timestamps => "Copy with timestamps",
            }
        }
    }

    /// The style class of a copy button.
    pub fn class(&self, target: CopyTarget) -> (r: &'static str)
        ensures
            self.target != Some(target) ==> r@ == "secondary-button"@,
            self.target == Some(target) && self.error ==> r@ == "secondary-button error"@,
            self.target == Some(target) && !self.error ==> r@ == "secondary-button success"@,
    {
        if self.target == Some(target) {
            if self.error {
                "secondary-button error"
            } else {
                "secondary-button success"
            }
        } else {
            "secondary-button"
        }
    }
}

} // verus!

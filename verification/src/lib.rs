//! Verified core of Transcribe Kit: the text, audio-sample and state logic
//! behind the desktop transcription app.
use vstd::prelude::*;

pub mod api;
pub mod audio;
pub mod banners;
pub mod capture;
pub mod commands;
pub mod decode;
pub mod devices;
pub mod display;
pub mod errors;
pub mod hotkeys;
pub mod input_devices;
pub mod live;
pub mod llm_server;
pub mod local_llm;
pub mod local_whisper;
pub mod model_store;
pub mod models;
pub mod mp3;
pub mod process_screen;
pub mod recording_manager;
pub mod notes;
pub mod notes_screen;
pub mod paths;
pub mod settings;
pub mod settings_fields;
pub mod settings_screen;
pub mod templates;
pub mod text;
pub mod transcript_text;
pub mod transcription;
pub mod transcription_job;
pub mod transcription_screen;

verus! {

} // verus!

//! Compressing 16 kHz mono PCM to MP3 with LAME (`mp3lame-encoder`) before
//! an upload: the settings handed to the encoder, the size of the output
//! buffer it needs, and the message for each stage that fails.  What LAME
//! writes is its own and is only named.
use vstd::prelude::*;

use mp3lame_encoder::{max_required_buffer_size, Bitrate, BuildError, Builder, FlushNoGap, MonoPcm, Quality};

use self::LameStage::{Build, Config, Encode, Flush, Init};

use crate::errors::{prefixed, TranscriptionError};

verus! {

/// The sample rate of the PCM that is compressed.
pub const UPLOAD_SAMPLE_RATE_HZ: u32 = 16_000;

/// The constant bitrate of the compressed file, in kbit/s.
pub const UPLOAD_BITRATE_KBPS: u16 = 64;

/// LAME's quality level for the upload: 0, its best.
pub const UPLOAD_QUALITY: u8 = 0;

/// The bitrates LAME offers, in kbit/s.
pub open spec fn is_lame_bitrate(kbps: u16) -> bool {
    kbps == 8 || kbps == 16 || kbps == 24 || kbps == 32 || kbps == 40 || kbps == 48 || kbps == 64
        || kbps == 80 || kbps == 96 || kbps == 112 || kbps == 128 || kbps == 160 || kbps == 192
        || kbps == 224 || kbps == 256 || kbps == 320
}

/// Which LAME call failed.
#[derive(Debug, Clone, Copy, PartialEq, Eq, Structural)]
pub enum LameStage {
    /// `Builder::new`: LAME could not allocate its state.
    Init,
    /// One of the builder's setters refused its setting.
    Config,
    /// `Builder::build` refused the settings together.
    Build,
    /// `Encoder::encode_to_vec`.
    Encode,
    /// `Encoder::flush_to_vec`.
    Flush,
}

/// The content of an encoding outcome.
pub open spec fn lame_view(r: Result<Vec<u8>, (LameStage, String)>) -> Result<Seq<u8>, (LameStage, Seq<char>)> {
    match r {
        Ok(b) => Ok(b@),
        Err((stage, d)) => Err((stage, d@)),
    }
}

/// Name for what LAME makes of mono 16-bit PCM at `rate_hz`, encoded at the
/// constant bitrate `kbps` and quality level `quality` (0 best, 9 worst)
/// and flushed without gap: the MP3 bytes, or the failing call and the
/// `Debug` text of its error.
pub uninterp spec fn lame_mono_mp3(pcm: Seq<i16>, rate_hz: u32, kbps: u16, quality: u8) -> Result<
    Seq<u8>,
    (LameStage, Seq<char>),
>;

#[verifier::external_type_specification]
#[verifier::external_body]
pub struct ExLameBitrate(Bitrate);

#[verifier::external_type_specification]
#[verifier::external_body]
pub struct ExLameQuality(Quality);

/// The `Bitrate` variant whose `#[repr(u16)]` value is `kbps`.
#[verifier::external_body]
fn lame_bitrate(kbps: u16) -> (r: Bitrate)
    requires
        is_lame_bitrate(kbps),
{
    match kbps {
        8 => Bitrate::Kbps8, 16 => Bitrate::Kbps16, 24 => Bitrate::Kbps24, 32 => Bitrate::Kbps32,
        40 => Bitrate::Kbps40, 48 => Bitrate::Kbps48, 64 => Bitrate::Kbps64, 80 => Bitrate::Kbps80,
        96 => Bitrate::Kbps96, 112 => Bitrate::Kbps112, 128 => Bitrate::Kbps128,
        160 => Bitrate::Kbps160, 192 => Bitrate::Kbps192, 224 => Bitrate::Kbps224,
        256 => Bitrate::Kbps256, _ => Bitrate::Kbps320,
    }
}

/// The `Quality` variant whose `#[repr(u8)]` value is `level`.
#[verifier::external_body]
fn lame_quality(level: u8) -> (r: Quality)
    requires
        level <= 9,
{
    match level {
        0 => Quality::Best, 1 => Quality::SecondBest, 2 => Quality::NearBest,
        3 => Quality::VeryNice, 4 => Quality::Nice, 5 => Quality::Good, 6 => Quality::Decent,
        7 => Quality::Ok, 8 => Quality::SecondWorst, _ => Quality::Worst,
    }
}

/// Encodes mono PCM with `mp3lame-encoder`: `Builder::new`, one channel
/// (`MonoPcm` input), `set_sample_rate(rate_hz)`, `set_brate` and
/// `set_quality` (the first setter error is kept) with the variants [`lame_bitrate`] and [`lame_quality`]
/// give for `kbps` and `quality`, `build`, then `encode_to_vec` and
/// `flush_to_vec::<FlushNoGap>` into a buffer of `max_required_buffer_size`
/// bytes; a failure as its stage and its error's `Debug` text.  The outcome
/// is named.
#[verifier::external_body]
fn lame_encode_mono(pcm: &Vec<i16>, rate_hz: u32, kbps: u16, quality: u8) -> (r: Result<Vec<u8>, (LameStage, String)>)
    requires
        is_lame_bitrate(kbps),
        quality <= 9,
    ensures
        lame_view(r) == lame_mono_mp3(pcm@, rate_hz, kbps, quality),
{
    let cfg = |e: BuildError| (Config, format!("{e:?}"));
    let mut b = Builder::new().ok_or((Init, String::new()))?;
    b.set_num_channels(1).and(b.set_sample_rate(rate_hz)).and(b.set_brate(lame_bitrate(kbps)))
        .and(b.set_quality(lame_quality(quality))).map_err(cfg)?;
    let mut e = b.build().map_err(|x| (Build, format!("{x:?}")))?;
    let mut out = Vec::with_capacity(max_required_buffer_size(pcm.len()));
    e.encode_to_vec(MonoPcm(pcm), &mut out).map_err(|x| (Encode, format!("{x:?}")))?;
    e.flush_to_vec::<FlushNoGap>(&mut out).map_err(|x| (Flush, format!("{x:?}")))?;
    Ok(out)
}

/// The message for a failed LAME call with error text `detail`.
pub open spec fn lame_stage_message(stage: LameStage, detail: Seq<char>) -> Seq<char> {
    match stage {
        LameStage::Init => "MP3 encoder init failed"@,
        LameStage::Config => "MP3 encoder config failed: "@ + detail,
        LameStage::Build => "MP3 encoder build failed: "@ + detail,
        LameStage::Encode => "MP3 encoding failed: "@ + detail,
        LameStage::Flush => "MP3 flush failed: "@ + detail,
    }
}

/// What an upload compression gives for LAME's outcome: its bytes, or an
/// `AudioEncode` error with the failing stage's message.
pub open spec fn upload_result_matches(
    r: Result<Vec<u8>, TranscriptionError>,
    outcome: Result<Seq<u8>, (LameStage, Seq<char>)>,
) -> bool {
    match outcome {
        Ok(b) => r matches Ok(x) && x@ == b,
        Err((stage, detail)) => r matches Err(TranscriptionError::AudioEncode(m)) && m@
            == lame_stage_message(stage, detail),
    }
}

/// Turns LAME's outcome into the upload's result.
pub fn upload_encoding_result(outcome: Result<Vec<u8>, (LameStage, String)>) -> (r: Result<
    Vec<u8>,
    TranscriptionError,
>)
    ensures
        upload_result_matches(r, lame_view(outcome)),
{
    match outcome {
        Ok(b) => Ok(b),
        Err((stage, detail)) => {
            let m = match stage {
                LameStage::Init => "MP3 encoder init failed".to_owned(),
                LameStage::Config => prefixed("MP3 encoder config failed: ", detail.as_str()),
                LameStage::Build => prefixed("MP3 encoder build failed: ", detail.as_str()),
                LameStage::Encode => prefixed("MP3 encoding failed: ", detail.as_str()),
                LameStage::Flush => prefixed("MP3 flush failed: ", detail.as_str()),
            };
            Err(TranscriptionError::AudioEncode(m))
        },
    }
}

/// Compresses 16 kHz mono PCM to a 64 kbit/s constant-bitrate MP3 at LAME's
/// best quality (level 0).  The result is LAME's output for exactly those
/// settings; it is `Ok` exactly when LAME encodes them, and otherwise the
/// failing stage's `AudioEncode` message with LAME's error text.
pub fn encode_pcm_for_upload(pcm: &Vec<i16>) -> (r: Result<Vec<u8>, TranscriptionError>)
    ensures
        upload_result_matches(
            r,
            lame_mono_mp3(pcm@, UPLOAD_SAMPLE_RATE_HZ, UPLOAD_BITRATE_KBPS, UPLOAD_QUALITY),
        ),
        r is Ok <==> lame_mono_mp3(pcm@, UPLOAD_SAMPLE_RATE_HZ, UPLOAD_BITRATE_KBPS, UPLOAD_QUALITY)
            is Ok,
{
    proof {
        assert(is_lame_bitrate(UPLOAD_BITRATE_KBPS));
    }
    let outcome = lame_encode_mono(pcm, UPLOAD_SAMPLE_RATE_HZ, UPLOAD_BITRATE_KBPS, UPLOAD_QUALITY);
    upload_encoding_result(outcome)
}

} // verus!

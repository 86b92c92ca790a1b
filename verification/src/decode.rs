//! Decoding an audio file to the mono 16 kHz PCM that transcription takes:
//! the order in which an Ogg/Opus stream's headers are checked, how the
//! Opus pre-skip is dropped, and what each failure of the general decoder
//! means.  The decoders themselves produce floating-point samples and run in
//! the app, which feeds their outcomes to the machines below.
use vstd::prelude::*;

use crate::audio::{
    bytes_start_with, opus_head_magic, opus_tags_magic, parse_opus_head, check_opus_head_supported,
    is_opus_tags_packet,
};
use crate::errors::{prefixed, transcription_error_message, TranscriptionError};
use crate::text::decimal;

use ogg::PacketReader;

verus! {

/// The sample rate Opus streams are decoded at.
pub const OPUS_DECODE_RATE_HZ: u32 = 48_000;

/// The largest number of frames one Opus packet decodes to (120 ms at 48 kHz).
pub const MAX_OPUS_PACKET_FRAMES: u64 = 5_760;

/// Which packet of an Ogg/Opus stream comes next.
#[derive(Debug, Clone, Copy, PartialEq, Eq, Structural)]
pub enum OggOpusStage {
    /// The identification header (`OpusHead`).
    Head,
    /// The comment header (`OpusTags`).
    Tags,
    /// Audio packets.
    Audio,
}

/// Progress through an Ogg/Opus stream.
#[derive(Debug, Clone, Copy)]
pub struct OggOpusReader {
    pub stage: OggOpusStage,
    /// Channels of the stream, known once the head was read.
    pub channels: u8,
    /// Frames of the pre-skip still to drop.
    pub skip_frames: u64,
    /// Whether any PCM value has been kept.
    pub has_samples: bool,
}

/// What to do after a packet was read from the Ogg stream (`None`: the
/// stream ended).
#[derive(Debug)]
pub enum OggStep {
    /// Stop with this error.
    Fail(TranscriptionError),
    /// The head is valid: create an Opus decoder for `channels` channels at
    /// 48 kHz, then read the next packet.
    StartDecoder { channels: u8 },
    /// Nothing to decode here; read the next packet.
    ReadNext,
    /// Decode this packet, then report how many frames it gave.
    Decode(Vec<u8>),
    /// The stream ended with audio decoded.
    Finished,
}

/// The PCM values of one decoded packet: the first `drop` values of the
/// `total` the decoder wrote are pre-skip and are discarded.
#[derive(Debug, Clone, Copy, PartialEq, Eq, Structural)]
pub struct DecodedSpan {
    pub drop: u64,
    pub total: u64,
}

/// `AudioDecode` with message `m`.
pub open spec fn is_decode_error(e: TranscriptionError, m: Seq<char>) -> bool {
    e matches TranscriptionError::AudioDecode(x) && x@ == m
}

impl OggOpusReader {
    /// Once the head was read the stream has one or two channels.
    pub open spec fn wf(self) -> bool {
        self.stage != OggOpusStage::Head ==> 1 <= self.channels <= 2
    }

    /// A reader waiting for the identification header.
    pub fn new() -> (r: Self)
        ensures
            r.wf(),
            r.stage == OggOpusStage::Head,
            r.channels == 0,
            r.skip_frames == 0,
            !r.has_samples,
    {
        OggOpusReader { stage: OggOpusStage::Head, channels: 0, skip_frames: 0, has_samples: false }
    }

    /// Takes the next packet of the stream (`None` when it ended).  The head
    /// must be a supported `OpusHead` (its pre-skip is remembered), the
    /// second packet an `OpusTags` header; afterwards empty packets are
    /// passed over, and the end of the stream is an error if no audio was
    /// kept.
    pub fn on_packet(&mut self, packet: Option<Vec<u8>>) -> (r: OggStep)
        requires
            old(self).wf(),
        ensures
            final(self).wf(),
            old(self).stage == OggOpusStage::Head ==> match packet {
                None => r matches OggStep::Fail(e) && is_decode_error(e, "The selected OGG file is empty"@)
                    && *final(self) == *old(self),
                Some(d) => {
                    let parsed = d@.len() >= 19 && bytes_start_with(d@, opus_head_magic()) && d@[8] != 0;
                    let supported = d@[18] == 0 && 1 <= d@[9] <= 2;
                    &&& !parsed ==> (r matches OggStep::Fail(e) && is_decode_error(
                        e,
                        if d@.len() < 19 || !bytes_start_with(d@, opus_head_magic()) {
                            "The selected OGG file does not contain a valid OpusHead packet"@
                        } else {
                            "The selected OGG/Opus file uses an invalid OpusHead version"@
                        },
                    ) && *final(self) == *old(self))
                    &&& parsed && !supported ==> (r matches OggStep::Fail(e) && is_decode_error(
                        e,
                        if d@[18] != 0 {
                            "OGG/Opus files with custom channel mapping are not supported yet"@
                        } else {
                            "OGG/Opus files with "@ + decimal(d@[9] as nat) + " channels are not supported yet"@
                        },
                    ) && *final(self) == *old(self))
                    &&& parsed && supported ==> r == OggStep::StartDecoder { channels: d@[9] }
                        && final(self).stage == OggOpusStage::Tags && final(self).channels == d@[9]
                        && final(self).skip_frames == d@[10] + 256 * d@[11] && !final(self).has_samples
                },
            },
            old(self).stage == OggOpusStage::Tags ==> match packet {
                None => r matches OggStep::Fail(e) && is_decode_error(
                    e,
                    "The selected OGG/Opus file is missing OpusTags"@,
                ) && *final(self) == *old(self),
                Some(d) => if bytes_start_with(d@, opus_tags_magic()) {
                    r is ReadNext && *final(self) == (OggOpusReader { stage: OggOpusStage::Audio, ..*old(self) })
                } else {
                    r matches OggStep::Fail(e) && is_decode_error(
                        e,
                        "The selected OGG/Opus file is missing a valid OpusTags packet"@,
                    ) && *final(self) == *old(self)
                },
            },
            old(self).stage == OggOpusStage::Audio ==> *final(self) == *old(self) && match packet {
                None => if old(self).has_samples {
                    r is Finished
                } else {
                    r matches OggStep::Fail(e) && is_decode_error(
                        e,
                        "The selected OGG/Opus file did not contain any decodable audio frames"@,
                    )
                },
                Some(d) => if d@.len() == 0 {
                    r is ReadNext
                } else {
                    r matches OggStep::Decode(p) && p@ == d@
                },
            },
    {
        match self.stage {
            OggOpusStage::Head => match packet {
                None => OggStep::Fail(
                    TranscriptionError::AudioDecode("The selected OGG file is empty".to_owned()),
                ),
                Some(d) => {
                    let head = match parse_opus_head(d.as_slice()) {
                        Ok(h) => h,
                        Err(e) => {
                            return OggStep::Fail(e);
                        },
                    };
                    match check_opus_head_supported(&head) {
                        Err(e) => OggStep::Fail(e),
                        Ok(()) => {
                            self.stage = OggOpusStage::Tags;
                            self.channels = head.channel_count;
                            self.skip_frames = head.pre_skip as u64;
                            self.has_samples = false;
                            OggStep::StartDecoder { channels: head.channel_count }
                        },
                    }
                },
            },
            OggOpusStage::Tags => match packet {
                None => OggStep::Fail(
                    TranscriptionError::AudioDecode(
                        "The selected OGG/Opus file is missing OpusTags".to_owned(),
                    ),
                ),
                Some(d) => {
                    if is_opus_tags_packet(d.as_slice()) {
                        self.stage = OggOpusStage::Audio;
                        OggStep::ReadNext
                    } else {
                        OggStep::Fail(
                            TranscriptionError::AudioDecode(
                                "The selected OGG/Opus file is missing a valid OpusTags packet".to_owned(),
                            ),
                        )
                    }
                },
            },
            OggOpusStage::Audio => match packet {
                None => {
                    if self.has_samples {
                        OggStep::Finished
                    } else {
                        OggStep::Fail(
                            TranscriptionError::AudioDecode(
                                "The selected OGG/Opus file did not contain any decodable audio frames".to_owned(),
                            ),
                        )
                    }
                },
                Some(d) => {
                    if d.len() == 0 {
                        OggStep::ReadNext
                    } else {
                        OggStep::Decode(d)
                    }
                },
            },
        }
    }

    /// The error for a packet the Ogg reader could not read.
    pub fn read_failed(&self, detail: &str) -> (r: TranscriptionError)
        ensures
            is_decode_error(
                r,
                if self.stage == OggOpusStage::Tags {
                    "Failed to read OGG tags packet: "@
                } else {
                    "Failed to read OGG packet: "@
                } + detail@,
            ),
    {
        if self.stage == OggOpusStage::Tags {
            TranscriptionError::AudioDecode(prefixed("Failed to read OGG tags packet: ", detail))
        } else {
            TranscriptionError::AudioDecode(prefixed("Failed to read OGG packet: ", detail))
        }
    }

    /// An audio packet decoded to `frames` frames: the pre-skip still owed
    /// is dropped from its start.
    pub fn on_decoded(&mut self, frames: u64) -> (r: DecodedSpan)
        requires
            old(self).wf(),
            old(self).stage == OggOpusStage::Audio,
            frames <= MAX_OPUS_PACKET_FRAMES,
        ensures
            final(self).wf(),
            final(self).stage == OggOpusStage::Audio,
            final(self).channels == old(self).channels,
            r.total == frames * old(self).channels,
            r.drop == (if old(self).skip_frames < frames {
                old(self).skip_frames
            } else {
                frames
            }) * old(self).channels,
            final(self).skip_frames == old(self).skip_frames - (if old(self).skip_frames < frames {
                old(self).skip_frames
            } else {
                frames
            }),
            final(self).has_samples == (old(self).has_samples || r.drop < r.total),
    {
        let skip = if self.skip_frames < frames {
            self.skip_frames
        } else {
            frames
        };
        let channels = self.channels as u64;
        assert(frames * channels <= 5_760 * 2) by (nonlinear_arith)
            requires
                frames <= 5_760,
                channels <= 2,
        ;
        assert(skip * channels <= frames * channels) by (nonlinear_arith)
            requires
                skip <= frames,
        ;
        let total = frames * channels;
        let drop = skip * channels;
        self.skip_frames = self.skip_frames - skip;
        if drop < total {
            self.has_samples = true;
        }
        DecodedSpan { drop, total }
    }
}

/// The error when no Opus decoder can be created for the stream.
pub fn opus_decoder_init_failed(detail: &str) -> (r: TranscriptionError)
    ensures
        is_decode_error(r, "Cannot initialize Opus decoder: "@ + detail@),
{
    TranscriptionError::AudioDecode(prefixed("Cannot initialize Opus decoder: ", detail))
}

/// The error when the Opus decoder refuses a packet.
pub fn opus_packet_failed(detail: &str) -> (r: TranscriptionError)
    ensures
        is_decode_error(r, "Failed to decode Opus packet: "@ + detail@),
{
    TranscriptionError::AudioDecode(prefixed("Failed to decode Opus packet: ", detail))
}

/// Why the general decoder stopped reading or decoding a packet.
#[derive(Debug)]
pub enum PacketFailure {
    /// The input ended (an unexpected end of file).
    EndOfStream,
    /// The packet's data could not be decoded.
    Undecodable(String),
    /// The decoder has to be reset before it can go on.
    ResetRequired(String),
    /// Any other failure, described.
    Other(String),
}

/// What the decoding loop does after a failure.
#[derive(Debug)]
pub enum PacketStep {
    /// Stop reading: the audio decoded so far is all there is.
    Stop,
    /// Pass over this packet.
    Skip,
    /// Stop with this error.
    Fail(TranscriptionError),
}

/// The text of a failure other than the end of the input.
pub open spec fn failure_detail(f: PacketFailure) -> Seq<char> {
    match f {
        PacketFailure::EndOfStream => Seq::empty(),
        PacketFailure::Undecodable(d) => d@,
        PacketFailure::ResetRequired(d) => d@,
        PacketFailure::Other(d) => d@,
    }
}

/// Reading the next packet failed: the end of the input ends decoding,
/// anything else is an error.
pub fn after_read_failure(f: PacketFailure) -> (r: PacketStep)
    ensures
        f is EndOfStream ==> r is Stop,
        !(f is EndOfStream) ==> (r matches PacketStep::Fail(e) && is_decode_error(
            e,
            "Failed to read audio packet: "@ + failure_detail(f),
        )),
{
    match f {
        PacketFailure::EndOfStream => PacketStep::Stop,
        PacketFailure::Undecodable(d) => PacketStep::Fail(
            TranscriptionError::AudioDecode(prefixed("Failed to read audio packet: ", d.as_str())),
        ),
        PacketFailure::ResetRequired(d) => PacketStep::Fail(
            TranscriptionError::AudioDecode(prefixed("Failed to read audio packet: ", d.as_str())),
        ),
        PacketFailure::Other(d) => PacketStep::Fail(
            TranscriptionError::AudioDecode(prefixed("Failed to read audio packet: ", d.as_str())),
        ),
    }
}

/// Decoding a packet failed: the end of the input ends decoding, corrupt
/// data skips the packet, a needed reset and anything else are errors.
pub fn after_decode_failure(f: PacketFailure) -> (r: PacketStep)
    ensures
        f is EndOfStream ==> r is Stop,
        f is Undecodable ==> r is Skip,
        f is ResetRequired ==> (r matches PacketStep::Fail(e) && is_decode_error(
            e,
            "Decoder reset required while reading the audio file"@,
        )),
        f is Other ==> (r matches PacketStep::Fail(e) && is_decode_error(
            e,
            "Failed to decode audio packet: "@ + failure_detail(f),
        )),
{
    match f {
        PacketFailure::EndOfStream => PacketStep::Stop,
        PacketFailure::Undecodable(_) => PacketStep::Skip,
        PacketFailure::ResetRequired(_) => PacketStep::Fail(
            TranscriptionError::AudioDecode(
                "Decoder reset required while reading the audio file".to_owned(),
            ),
        ),
        PacketFailure::Other(d) => PacketStep::Fail(
            TranscriptionError::AudioDecode(prefixed("Failed to decode audio packet: ", d.as_str())),
        ),
    }
}

/// Why the general decoder could not start on a file.
#[derive(Debug)]
pub enum SetupFailure {
    /// The file could not be opened.
    Open(String),
    /// No format reader recognises the file.
    Probe(String),
    /// The file has no default track.
    NoDefaultTrack,
    /// No decoder exists for the track's codec.
    Codec(String),
}

/// The message for a failed start of the general decoder.
pub open spec fn setup_failure_message(f: SetupFailure) -> Seq<char> {
    match f {
        SetupFailure::Open(d) => "Cannot open audio file: "@ + d@,
        SetupFailure::Probe(d) => "Unsupported audio file: "@ + d@,
        SetupFailure::NoDefaultTrack => "No default audio track found in file"@,
        SetupFailure::Codec(d) => "Cannot decode audio stream: "@ + d@,
    }
}

/// The error for a failed start of the general decoder.
pub fn setup_failed(f: SetupFailure) -> (r: TranscriptionError)
    ensures
        is_decode_error(r, setup_failure_message(f)),
{
    match f {
        SetupFailure::Open(d) => TranscriptionError::AudioDecode(
            prefixed("Cannot open audio file: ", d.as_str()),
        ),
        SetupFailure::Probe(d) => TranscriptionError::AudioDecode(
            prefixed("Unsupported audio file: ", d.as_str()),
        ),
        SetupFailure::NoDefaultTrack => TranscriptionError::AudioDecode(
            "No default audio track found in file".to_owned(),
        ),
        SetupFailure::Codec(d) => TranscriptionError::AudioDecode(
            prefixed("Cannot decode audio stream: ", d.as_str()),
        ),
    }
}

/// The sample rate and channel count a track starts with: what its codec
/// parameters say, else 16 kHz mono.
pub fn track_format(sample_rate: Option<u32>, channel_count: Option<u16>) -> (r: (u32, u16))
    ensures
        r.0 == (match sample_rate {
            Some(h) => h,
            None => 16_000,
        }),
        r.1 == (match channel_count {
            Some(c) => c,
            None => 1,
        }),
{
    let rate = match sample_rate {
        Some(h) => h,
        None => 16_000,
    };
    let channels = match channel_count {
        Some(c) => c,
        None => 1,
    };
    (rate, channels)
}

/// The general decoder's result must hold at least one sample.
pub fn require_samples(sample_count: usize) -> (r: Result<(), TranscriptionError>)
    ensures
        r is Ok <==> sample_count > 0,
        r matches Err(e) ==> is_decode_error(
            e,
            "The selected file did not contain any decodable audio samples"@,
        ),
{
    if sample_count == 0 {
        Err(
            TranscriptionError::AudioDecode(
                "The selected file did not contain any decodable audio samples".to_owned(),
            ),
        )
    } else {
        Ok(())
    }
}

/// The error when an Ogg file fails as Opus and then with the general
/// decoder too: both messages, the Opus one first.
pub fn fallback_failed(opus_error: &TranscriptionError, fallback_error: &TranscriptionError) -> (r:
    TranscriptionError)
    ensures
        is_decode_error(
            r,
            transcription_error_message(*opus_error) + ". Symphonia fallback also failed: "@
                + transcription_error_message(*fallback_error),
        ),
{
    let mut m = opus_error.to_string();
    m.append(". Symphonia fallback also failed: ");
    let second = fallback_error.to_string();
    m.append(second.as_str());
    TranscriptionError::AudioDecode(m)
}

/// The contents of a list of packets.
pub open spec fn packets_view(v: Seq<Vec<u8>>) -> Seq<Seq<u8>> {
    v.map_values(|p: Vec<u8>| p@)
}

/// Name for how the `ogg` crate's `PacketReader` splits an Ogg stream held
/// in memory: the packets it reads in order, and the text of the error that
/// stopped it, if one did (`None`: the stream ended cleanly).
pub uninterp spec fn ogg_packet_split(bytes: Seq<u8>) -> (Seq<Seq<u8>>, Option<Seq<char>>);

/// Reads every packet of an Ogg stream with `ogg::PacketReader::read_packet`
/// over the bytes, until the stream ends or a read fails.
#[verifier::external_body]
fn ogg_packets(bytes: &Vec<u8>) -> (r: (Vec<Vec<u8>>, Option<String>))
    ensures
        (packets_view(r.0@), match r.1 {
            Some(e) => Some(e@),
            None => None,
        }) == ogg_packet_split(bytes@),
{
    let mut reader = PacketReader::new(std::io::Cursor::new(bytes.as_slice()));
    let mut packets = Vec::new();
    loop {
        match reader.read_packet() {
            Ok(Some(packet)) => packets.push(packet.data),
            Ok(None) => return (packets, None),
            Err(error) => return (packets, Some(error.to_string())),
        }
    }
}

/// The packets of an Ogg stream (the file's bytes), in order, and the read
/// error that ended them early, if any; they are fed one by one to
/// [`OggOpusReader::on_packet`], the error to [`OggOpusReader::read_failed`].
pub fn ogg_stream_packets(bytes: &Vec<u8>) -> (r: (Vec<Vec<u8>>, Option<String>))
    ensures
        (packets_view(r.0@), match r.1 {
            Some(e) => Some(e@),
            None => None,
        }) == ogg_packet_split(bytes@),
{
    ogg_packets(bytes)
}

} // verus!

use ogg::writing::{PacketWriteEndInfo, PacketWriter};
use transcribe_kit::decode::ogg_stream_packets;
use transcribe_kit::decode::{
    after_decode_failure, after_read_failure, fallback_failed, opus_decoder_init_failed,
    opus_packet_failed, require_samples, setup_failed, track_format, DecodedSpan, OggOpusReader,
    OggOpusStage, OggStep, PacketFailure, PacketStep, SetupFailure,
};
use transcribe_kit::errors::TranscriptionError;

fn decode_message(e: &TranscriptionError) -> &str {
    match e {
        TranscriptionError::AudioDecode(m) => m.as_str(),
        other => panic!("unexpected error {other:?}"),
    }
}

fn opus_head(channels: u8, pre_skip: u16, mapping: u8) -> Vec<u8> {
    let mut head = b"OpusHead".to_vec();
    head.push(1);
    head.push(channels);
    head.extend_from_slice(&pre_skip.to_le_bytes());
    head.extend_from_slice(&48_000u32.to_le_bytes());
    head.extend_from_slice(&0u16.to_le_bytes());
    head.push(mapping);
    head
}

#[test]
fn ogg_opus_stream_walks_head_tags_then_audio() {
    let mut reader = OggOpusReader::new();
    assert_eq!(reader.stage, OggOpusStage::Head);
    let step = reader.on_packet(Some(opus_head(2, 312, 0)));
    assert!(matches!(step, OggStep::StartDecoder { channels: 2 }));
    assert_eq!(reader.stage, OggOpusStage::Tags);
    assert_eq!(reader.skip_frames, 312);
    assert!(matches!(reader.on_packet(Some(b"OpusTags\0\0\0\0".to_vec())), OggStep::ReadNext));
    assert_eq!(reader.stage, OggOpusStage::Audio);
    assert!(matches!(reader.on_packet(Some(Vec::new())), OggStep::ReadNext));
    match reader.on_packet(Some(vec![1, 2, 3])) {
        OggStep::Decode(p) => assert_eq!(p, vec![1, 2, 3]),
        other => panic!("unexpected step {other:?}"),
    }
    assert_eq!(reader.on_decoded(200), DecodedSpan { drop: 400, total: 400 });
    assert_eq!(reader.skip_frames, 112);
    assert!(!reader.has_samples);
    assert_eq!(reader.on_decoded(960), DecodedSpan { drop: 224, total: 1920 });
    assert_eq!(reader.skip_frames, 0);
    assert!(reader.has_samples);
    assert!(matches!(reader.on_packet(None), OggStep::Finished));
}

#[test]
fn ogg_opus_stream_errors() {
    let mut reader = OggOpusReader::new();
    match reader.on_packet(None) {
        OggStep::Fail(e) => assert_eq!(decode_message(&e), "The selected OGG file is empty"),
        other => panic!("unexpected step {other:?}"),
    }
    match reader.on_packet(Some(opus_head(3, 0, 0))) {
        OggStep::Fail(e) => {
            assert_eq!(decode_message(&e), "OGG/Opus files with 3 channels are not supported yet")
        }
        other => panic!("unexpected step {other:?}"),
    }
    match reader.on_packet(Some(opus_head(1, 0, 1))) {
        OggStep::Fail(e) => assert_eq!(
            decode_message(&e),
            "OGG/Opus files with custom channel mapping are not supported yet"
        ),
        other => panic!("unexpected step {other:?}"),
    }
    assert_eq!(reader.stage, OggOpusStage::Head);
    assert!(matches!(reader.on_packet(Some(opus_head(1, 0, 0))), OggStep::StartDecoder { channels: 1 }));
    assert_eq!(
        decode_message(&reader.read_failed("bad page")),
        "Failed to read OGG tags packet: bad page"
    );
    match reader.on_packet(Some(b"NotTags".to_vec())) {
        OggStep::Fail(e) => assert_eq!(
            decode_message(&e),
            "The selected OGG/Opus file is missing a valid OpusTags packet"
        ),
        other => panic!("unexpected step {other:?}"),
    }
    match reader.on_packet(None) {
        OggStep::Fail(e) => {
            assert_eq!(decode_message(&e), "The selected OGG/Opus file is missing OpusTags")
        }
        other => panic!("unexpected step {other:?}"),
    }
    assert!(matches!(reader.on_packet(Some(b"OpusTags".to_vec())), OggStep::ReadNext));
    assert_eq!(decode_message(&reader.read_failed("bad page")), "Failed to read OGG packet: bad page");
    match reader.on_packet(None) {
        OggStep::Fail(e) => assert_eq!(
            decode_message(&e),
            "The selected OGG/Opus file did not contain any decodable audio frames"
        ),
        other => panic!("unexpected step {other:?}"),
    }
    assert_eq!(decode_message(&opus_decoder_init_failed("x")), "Cannot initialize Opus decoder: x");
    assert_eq!(decode_message(&opus_packet_failed("y")), "Failed to decode Opus packet: y");
}

#[test]
fn general_decoder_failures() {
    assert!(matches!(after_read_failure(PacketFailure::EndOfStream), PacketStep::Stop));
    match after_read_failure(PacketFailure::Other("io".to_string())) {
        PacketStep::Fail(e) => assert_eq!(decode_message(&e), "Failed to read audio packet: io"),
        other => panic!("unexpected step {other:?}"),
    }
    assert!(matches!(after_decode_failure(PacketFailure::EndOfStream), PacketStep::Stop));
    assert!(matches!(after_decode_failure(PacketFailure::Undecodable("c".to_string())), PacketStep::Skip));
    match after_decode_failure(PacketFailure::ResetRequired("r".to_string())) {
        PacketStep::Fail(e) => {
            assert_eq!(decode_message(&e), "Decoder reset required while reading the audio file")
        }
        other => panic!("unexpected step {other:?}"),
    }
    match after_decode_failure(PacketFailure::Other("z".to_string())) {
        PacketStep::Fail(e) => assert_eq!(decode_message(&e), "Failed to decode audio packet: z"),
        other => panic!("unexpected step {other:?}"),
    }
    assert_eq!(
        decode_message(&setup_failed(SetupFailure::Probe("no reader".to_string()))),
        "Unsupported audio file: no reader"
    );
    assert_eq!(
        decode_message(&setup_failed(SetupFailure::NoDefaultTrack)),
        "No default audio track found in file"
    );
    assert_eq!(track_format(None, None), (16_000, 1));
    assert_eq!(track_format(Some(44_100), Some(2)), (44_100, 2));
    assert!(require_samples(3).is_ok());
    assert_eq!(
        decode_message(&require_samples(0).unwrap_err()),
        "The selected file did not contain any decodable audio samples"
    );
    let combined = fallback_failed(
        &TranscriptionError::AudioDecode("a".to_string()),
        &TranscriptionError::AudioDecode("b".to_string()),
    );
    assert_eq!(
        decode_message(&combined),
        "Audio decoding error: a. Symphonia fallback also failed: Audio decoding error: b"
    );
}

#[test]
fn ogg_streams_split_into_their_packets() {
    let mut writer = PacketWriter::new(Vec::new());
    writer.write_packet(opus_head(1, 0, 0), 7, PacketWriteEndInfo::EndPage, 0).unwrap();
    writer.write_packet(b"OpusTags".to_vec(), 7, PacketWriteEndInfo::EndPage, 0).unwrap();
    writer.write_packet(vec![9, 9, 9], 7, PacketWriteEndInfo::EndStream, 960).unwrap();
    let bytes = writer.into_inner();
    let (packets, error) = ogg_stream_packets(&bytes);
    assert!(error.is_none());
    assert_eq!(packets.len(), 3);
    assert_eq!(packets[0], opus_head(1, 0, 0));
    assert_eq!(packets[2], vec![9, 9, 9]);
    let mut reader = OggOpusReader::new();
    assert!(matches!(reader.on_packet(Some(packets[0].clone())), OggStep::StartDecoder { channels: 1 }));
    assert!(matches!(reader.on_packet(Some(packets[1].clone())), OggStep::ReadNext));
    assert!(matches!(reader.on_packet(Some(packets[2].clone())), OggStep::Decode(_)));
    let (none, _) = ogg_stream_packets(&b"not an ogg stream".to_vec());
    assert!(none.is_empty());
}

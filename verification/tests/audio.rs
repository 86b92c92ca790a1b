use transcribe_kit::audio::{
    check_opus_head_supported, downmix_to_mono, duration_ms_from_frames, is_ogg_path,
    is_opus_tags_packet, mix_mono_samples, mix_sample, parse_opus_head, OpusHead,
};

fn check_duration_ms_uses_frame_count() {
    assert_eq!(duration_ms_from_frames(16_000, 16_000), 1000);
    assert_eq!(duration_ms_from_frames(8_000, 16_000), 500);
}

#[test]
fn live_recording_duration_ms_uses_frame_count() {
    check_duration_ms_uses_frame_count();
}

#[test]
fn wav_mixing_duration_ms_uses_frame_count() {
    check_duration_ms_uses_frame_count();
}

#[test]
fn duration_is_zero_without_a_sample_rate_and_saturates() {
    assert_eq!(duration_ms_from_frames(16_000, 0), 0);
    assert_eq!(duration_ms_from_frames(u64::MAX, 1), u64::MAX);
}

#[test]
fn mix_wav_files_combines_equal_length_mono_files() {
    assert_eq!(mix_mono_samples(&vec![100, -100, 25], &vec![10, 20, -30]), vec![110, -80, -5]);
}

#[test]
fn mix_wav_files_writes_remaining_samples_from_longer_file() {
    assert_eq!(mix_mono_samples(&vec![100, 100], &vec![50, 60, 70, 80]), vec![150, 160, 70, 80]);
}

#[test]
fn mix_wav_files_downmixes_stereo_to_mono_before_mixing() {
    let mic = downmix_to_mono(vec![100, 300, 200, 400], 2);
    let loopback = downmix_to_mono(vec![10, 20], 1);
    assert_eq!(mix_mono_samples(&mic, &loopback), vec![210, 320]);
}

#[test]
fn mix_wav_files_clamps_summed_samples_to_i16_range() {
    assert_eq!(
        mix_mono_samples(&vec![i16::MAX, i16::MIN], &vec![100, -100]),
        vec![i16::MAX, i16::MIN]
    );
    assert_eq!(mix_sample(i16::MAX, 1), i16::MAX);
    assert_eq!(mix_sample(-5, 3), -2);
}

#[test]
fn downmix_averages_each_frame_truncating_toward_zero() {
    assert_eq!(downmix_to_mono(vec![1, 2, -1, -2], 2), vec![1, -1]);
    assert_eq!(downmix_to_mono(vec![3, 3, 3, 9], 3), vec![3, 9]);
    assert_eq!(downmix_to_mono(vec![7, 8], 0), vec![7, 8]);
}

fn opus_head(version: u8, channels: u8, pre_skip: u16, family: u8) -> Vec<u8> {
    let mut data = b"OpusHead".to_vec();
    data.push(version);
    data.push(channels);
    data.extend_from_slice(&pre_skip.to_le_bytes());
    data.extend_from_slice(&48_000u32.to_le_bytes());
    data.extend_from_slice(&0u16.to_le_bytes());
    data.push(family);
    data
}

#[test]
fn parse_opus_head_reads_the_identification_header() {
    let head = parse_opus_head(&opus_head(1, 2, 312, 0)).expect("valid header");
    assert_eq!(head, OpusHead { channel_count: 2, pre_skip: 312, mapping_family: 0 });
    assert!(check_opus_head_supported(&head).is_ok());
}

#[test]
fn parse_opus_head_rejects_bad_packets() {
    let error = parse_opus_head(b"OpusTags").unwrap_err().to_string();
    assert!(error.contains("does not contain a valid OpusHead packet"));
    let error = parse_opus_head(&opus_head(0, 2, 0, 0)).unwrap_err().to_string();
    assert!(error.contains("invalid OpusHead version"));
}

#[test]
fn unsupported_opus_layouts_are_rejected() {
    let surround = OpusHead { channel_count: 6, pre_skip: 0, mapping_family: 1 };
    assert!(check_opus_head_supported(&surround).is_err());
    let many = OpusHead { channel_count: 3, pre_skip: 0, mapping_family: 0 };
    assert!(check_opus_head_supported(&many).is_err());
}

#[test]
fn opus_tags_and_ogg_paths_are_recognized() {
    assert!(is_opus_tags_packet(b"OpusTags\x00"));
    assert!(!is_opus_tags_packet(b"OpusHead"));
    assert!(is_ogg_path("/tmp/voice.OGG"));
    assert!(!is_ogg_path("/tmp/voice.opus"));
}

use transcribe_kit::live::format_duration;
use transcribe_kit::models::TranscriptSegment;
use transcribe_kit::transcript_text::{
    file_name_from_path, format_duration_label, format_timestamp, format_transcript_with_timestamps,
};

#[test]
fn format_transcript_with_timestamps_falls_back_to_plain_text_without_segments() {
    let formatted = format_transcript_with_timestamps(&[], "  Hello world  ");
    assert_eq!(formatted, "Hello world");
}

#[test]
fn format_transcript_with_timestamps_renders_timestamped_lines() {
    let segments = vec![
        TranscriptSegment { start_ms: 0, end_ms: 3_000, text: " Hello ".to_string() },
        TranscriptSegment { start_ms: 3_000, end_ms: 7_000, text: "world".to_string() },
    ];

    let formatted = format_transcript_with_timestamps(&segments, "ignored");

    assert_eq!(formatted, "[00:00 - 00:03] Hello\n[00:03 - 00:07] world");
}

#[test]
fn format_timestamp_clamps_negative_offsets_and_grows_past_an_hour() {
    assert_eq!(format_timestamp(-5_000), "00:00");
    assert_eq!(format_timestamp(61_999), "01:01");
    assert_eq!(format_timestamp(6_000_000), "100:00");
}

#[test]
fn format_duration_label_prefixes_the_clock() {
    assert_eq!(format_duration_label(125_000), "Duration: 02:05");
    assert_eq!(format_duration_label(u64::MAX), "Duration: 00:00");
    assert_eq!(format_duration(5_200), "00:05");
}

#[test]
fn file_name_from_path_takes_the_last_component() {
    assert_eq!(file_name_from_path("/tmp/a/b/clip.wav"), "clip.wav");
    assert_eq!(file_name_from_path("C:\\Users\\me\\note.mp3"), "note.mp3");
    assert_eq!(file_name_from_path("plain.wav"), "plain.wav");
    assert_eq!(file_name_from_path("/tmp/dir/"), "/tmp/dir/");
}

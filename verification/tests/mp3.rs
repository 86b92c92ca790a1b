use transcribe_kit::errors::TranscriptionError;
use transcribe_kit::mp3::{encode_pcm_for_upload, upload_encoding_result, LameStage};

#[test]
fn pcm_compresses_to_mp3_frames() {
    let pcm: Vec<i16> = (0..16_000).map(|i| ((i % 80) as i16 - 40) * 300).collect();
    let mp3 = encode_pcm_for_upload(&pcm).expect("encoded");
    assert!(mp3.len() > 100);
    assert!(mp3.len() < pcm.len() * 2);
    let sync = mp3.windows(2).position(|w| w[0] == 0xFF && (w[1] & 0xE0) == 0xE0);
    assert!(sync.is_some());
    assert_eq!(encode_pcm_for_upload(&pcm).expect("encoded again"), mp3);
}

#[test]
fn each_failed_stage_has_its_message() {
    let message = |stage: LameStage| match upload_encoding_result(Err((stage, "Generic".to_string()))) {
        Err(TranscriptionError::AudioEncode(m)) => m,
        other => panic!("unexpected {other:?}"),
    };
    assert_eq!(message(LameStage::Init), "MP3 encoder init failed");
    assert_eq!(message(LameStage::Config), "MP3 encoder config failed: Generic");
    assert_eq!(message(LameStage::Build), "MP3 encoder build failed: Generic");
    assert_eq!(message(LameStage::Encode), "MP3 encoding failed: Generic");
    assert_eq!(message(LameStage::Flush), "MP3 flush failed: Generic");
    assert_eq!(upload_encoding_result(Ok(vec![1, 2])).unwrap(), vec![1, 2]);
}

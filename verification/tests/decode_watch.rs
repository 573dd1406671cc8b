use scrcpy_panel::decode_watch::{
    audio_codec_check, codec_name, video_codec_check, ConfigMerge, RunWatch, ACCEPTED_WITHOUT_A_FRAME,
    REFUSALS_WORTH_A_WORD,
};
use scrcpy_panel::demuxer::CodecType;

#[test]
fn a_run_of_refusals_is_counted() {
    let mut watch = RunWatch::new();
    let mut said = Vec::new();
    for n in 1..=3 * REFUSALS_WORTH_A_WORD {
        if watch.miss(REFUSALS_WORTH_A_WORD) {
            said.push(n);
        }
    }
    assert_eq!(said, vec![REFUSALS_WORTH_A_WORD], "said once, when the run reached the limit");
    assert_eq!(watch.run_length(), 3 * REFUSALS_WORTH_A_WORD);
}

#[test]
fn an_accepted_packet_ends_the_run() {
    let mut watch = RunWatch::new();
    for _ in 0..ACCEPTED_WITHOUT_A_FRAME {
        watch.miss(ACCEPTED_WITHOUT_A_FRAME);
    }
    watch.reset();
    assert_eq!(watch.run_length(), 0);
    let mut spoke = false;
    for _ in 0..ACCEPTED_WITHOUT_A_FRAME {
        spoke |= watch.miss(ACCEPTED_WITHOUT_A_FRAME);
    }
    assert!(spoke, "a new run is said again");
}

#[test]
fn config_data_goes_in_front_of_the_next_picture_once() {
    let mut merge = ConfigMerge::new();
    assert_eq!(merge.take(true, &[1, 2]), None);
    assert_eq!(merge.take(true, &[3]), None);
    assert_eq!(merge.take(false, &[9, 9]), Some(vec![1, 2, 3, 9, 9]));
    assert_eq!(merge.take(false, &[8]), Some(vec![8]));
}

#[test]
fn each_decoder_takes_its_own_codecs() {
    for codec in [CodecType::H264, CodecType::H265, CodecType::AV1] {
        assert!(video_codec_check(codec).is_ok());
        assert!(audio_codec_check(codec).is_err());
    }
    for codec in [CodecType::Opus, CodecType::Aac, CodecType::Flac, CodecType::Raw] {
        assert!(audio_codec_check(codec).is_ok());
    }
    assert_eq!(video_codec_check(CodecType::Opus).unwrap_err(), "Not a video codec: Opus");
    assert_eq!(audio_codec_check(CodecType::Vp8).unwrap_err(), "Not an audio codec: Vp8");
    assert_eq!(codec_name(CodecType::AV1), format!("{:?}", CodecType::AV1));
}

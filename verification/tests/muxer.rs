use scrcpy_panel::muxer::{check_the_format, muxer_format_for, writes_rotation, FormatError};
use scrcpy_panel::paths::extension_of;

#[test]
fn the_format_is_the_flag_then_the_extension() {
    assert_eq!(muxer_format_for("out.mp4", Some("mkv")), "matroska");
    assert_eq!(muxer_format_for("out.mkv", Some("mp4")), "mp4");
    for asked in [None, Some(""), Some("auto")] {
        assert_eq!(muxer_format_for("out.mkv", asked), "matroska");
        assert_eq!(muxer_format_for("out.opus", asked), "opus");
        assert_eq!(muxer_format_for("out.flac", asked), "flac");
        assert_eq!(muxer_format_for("out.wav", asked), "wav");
        assert_eq!(muxer_format_for("out.m4a", asked), "mp4");
        assert_eq!(muxer_format_for("out.mka", asked), "matroska");
    }
    assert_eq!(muxer_format_for("out.aac", None), "adts");
    assert_eq!(muxer_format_for("out.webm", None), "mp4");
    assert_eq!(muxer_format_for("recording", None), "mp4");
}

#[test]
fn a_container_is_not_given_a_stream_it_cannot_hold() {
    for name in ["out.opus", "out.flac", "out.wav", "out.m4a", "out.mka", "out.aac"] {
        let refused = check_the_format(name, None, true).unwrap_err().message();
        assert_eq!(refused, "Audio container does not support video stream", "{name}");
        assert!(check_the_format(name, None, false).is_ok(), "{name} with no video");
    }
    for name in ["out.mp4", "out.mkv"] {
        assert!(check_the_format(name, None, true).is_ok(), "{name}");
    }

    let refused = check_the_format("out", Some("webm"), true).unwrap_err().message();
    assert_eq!(
        refused,
        "Unsupported record format: webm \
         (expected mp4, mkv, m4a, mka, opus, aac, flac or wav)"
    );
    assert!(check_the_format("out.webm", None, true).is_err(), "and by extension too");
    assert!(check_the_format("recording", None, true).is_ok());
}

#[test]
fn the_extension_is_that_of_the_last_component() {
    assert_eq!(extension_of("/tmp/my.dir/recording"), None);
    assert_eq!(extension_of("/tmp/my.dir/out.MKV"), Some("MKV".to_string()));
    assert_eq!(extension_of("/tmp/.hidden"), None);
    assert_eq!(extension_of("/tmp/a.b.c"), Some("c".to_string()));
    assert_eq!(extension_of("/tmp/.."), None);
    // Upper case is a different selector, and no format.
    assert!(matches!(
        check_the_format("/tmp/my.dir/out.MKV", None, true),
        Err(FormatError::Unsupported(s)) if s == "MKV"
    ));
    assert!(check_the_format("/tmp/my.dir/recording", None, true).is_ok());
}

#[test]
fn only_a_real_turn_is_written_into_the_file() {
    assert!(!writes_rotation(0));
    assert!(!writes_rotation(360));
    assert!(writes_rotation(90));
    assert!(writes_rotation(270));
}

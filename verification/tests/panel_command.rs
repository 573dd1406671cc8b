use scrcpy_panel::panel_command::{is_supported, PanelConfig, SUPPORTED};
use scrcpy_panel::panel_command_line::{client_args, command_line, expand_bit_rate, flag_name};

#[test]
fn an_untouched_form_produces_a_bare_command() {
    let cfg = PanelConfig::default();
    assert_eq!(cfg.to_flags(), Vec::<String>::new());
    assert_eq!(cfg.to_command_line(), "scrcpy");
    assert_eq!(cfg.flag_count(), 0);
}

#[test]
fn only_changed_values_become_flags() {
    let mut cfg = PanelConfig::default();
    cfg.video_codec = "h265".into();
    cfg.max_size = "1024".into();
    cfg.stay_awake = true;

    let flags = cfg.to_flags();
    assert!(flags.contains(&"--video-codec=h265".to_string()));
    assert!(flags.contains(&"--max-size=1024".to_string()));
    assert!(flags.contains(&"--stay-awake".to_string()));
    assert_eq!(flags.len(), 3, "unchanged fields must not emit flags: {flags:?}");
}

#[test]
fn camera_flags_only_appear_for_the_camera_source() {
    let mut cfg = PanelConfig::default();
    cfg.camera_id = "1".into();
    cfg.camera_high_speed = true;
    assert!(cfg.to_flags().is_empty(), "camera settings are inert while mirroring the display");

    cfg.video_source = "camera".into();
    let flags = cfg.to_flags();
    assert!(flags.contains(&"--camera-id=1".to_string()));
    assert!(flags.contains(&"--camera-high-speed".to_string()));
}

#[test]
fn switches_that_carry_a_value_stay_silent_until_enabled() {
    let mut cfg = PanelConfig::default();
    cfg.record_path = "/tmp/out.mp4".into();
    cfg.new_display = "800x600".into();
    assert!(cfg.to_flags().is_empty(), "a path alone is not a session");

    cfg.record_enabled = true;
    cfg.new_display_enabled = true;
    let flags = cfg.to_flags();
    assert!(flags.contains(&"--new-display=800x600".to_string()));
    assert!(
        flags.iter().any(|f| f.starts_with("--record=/tmp/out-") && f.ends_with(".mp4")),
        "expected a timestamped recording path, got {flags:?}"
    );
}

#[test]
fn unsupported_flags_are_reported_rather_than_passed_on() {
    let mut cfg = PanelConfig::default();
    cfg.max_size = "800".into();
    cfg.otg = true;
    cfg.gamepad = "uhid".into();

    let (accepted, dropped) = cfg.to_client_args();
    assert_eq!(accepted, vec!["--max-size=800".to_string()]);
    assert!(dropped.contains(&"--otg".to_string()));
    assert!(dropped.contains(&"--gamepad=uhid".to_string()));
}

#[test]
fn the_timestamp_checkbox_reaches_the_filename() {
    let mut cfg = PanelConfig::default();
    cfg.record_enabled = true;
    cfg.record_path = "/tmp/session.mp4".into();

    let stamped = cfg.effective_record_path();
    assert!(stamped.starts_with("/tmp/session-"), "got {stamped}");
    assert!(stamped.ends_with(".mp4"), "got {stamped}");

    cfg.record_timestamp = false;
    assert_eq!(cfg.effective_record_path(), "/tmp/session.mp4");
}

#[test]
fn an_extensionless_recording_path_still_takes_a_timestamp() {
    let mut cfg = PanelConfig::default();
    cfg.record_path = "/tmp/capture".into();
    assert!(cfg.effective_record_path().starts_with("/tmp/capture-"));
}

#[test]
fn a_selected_device_reaches_the_command() {
    let mut cfg = PanelConfig::default();
    cfg.serial = "a1683d6b0013".into();

    let line = cfg.to_command_line_for(&["a1683d6b0013".to_string()]);
    assert_eq!(line, "scrcpy --serial=a1683d6b0013");

    let (accepted, dropped) = cfg.to_client_args();
    assert_eq!(accepted, vec!["--serial=a1683d6b0013".to_string()]);
    assert!(dropped.is_empty());
}

#[test]
fn one_device_is_one_command() {
    let mut cfg = PanelConfig::default();
    cfg.max_size = "1024".into();
    assert_eq!(cfg.to_command_line_for(&["ABC123".to_string()]), "scrcpy --max-size=1024");
}

#[test]
fn several_devices_become_a_loop() {
    let mut cfg = PanelConfig::default();
    cfg.max_size = "1024".into();
    cfg.serial = "ABC123".into();

    let line = cfg.to_command_line_for(&["ABC123".to_string(), "DEF456".to_string()]);
    assert_eq!(line, "for s in ABC123 DEF456; do scrcpy --serial=$s --max-size=1024 & done");
    assert!(!line.contains("--serial=ABC123"), "got {line}");
}

#[test]
fn a_loop_with_no_other_flags_is_still_valid() {
    let cfg = PanelConfig::default();
    assert_eq!(
        cfg.to_command_line_for(&["A".to_string(), "B".to_string()]),
        "for s in A B; do scrcpy --serial=$s & done"
    );
}

#[test]
fn tcpip_needs_an_address_to_mean_anything() {
    let mut cfg = PanelConfig::default();
    cfg.tcpip_enabled = true;
    assert!(cfg.to_flags().is_empty(), "a bare --tcpip has nothing to connect to");

    cfg.tcpip_addr = "192.168.1.5:5555".into();
    assert!(cfg.to_flags().contains(&"--tcpip=192.168.1.5:5555".to_string()));
}

#[test]
fn bit_rates_are_expanded_for_the_client_but_not_for_the_preview() {
    let mut cfg = PanelConfig::default();
    cfg.video_bit_rate = "12M".into();
    cfg.audio_bit_rate = "96K".into();

    assert!(cfg.to_command_line().contains("--video-bit-rate=12M"));
    assert!(cfg.to_command_line().contains("--audio-bit-rate=96K"));

    let (accepted, _) = cfg.to_client_args();
    assert!(accepted.contains(&"--video-bit-rate=12000000".to_string()));
    assert!(accepted.contains(&"--audio-bit-rate=96000".to_string()));
}

#[test]
fn a_plain_bit_rate_survives_unchanged() {
    assert_eq!(expand_bit_rate("8000000"), "8000000");
    assert_eq!(expand_bit_rate("2M"), "2000000");
    assert_eq!(expand_bit_rate("128K"), "128000");
    assert_eq!(expand_bit_rate("nonsense"), "nonsense");
}

#[test]
fn flags_with_no_implementation_are_not_offered() {
    for flag in ["--gamepad", "--otg"] {
        assert!(
            !SUPPORTED.contains(&flag),
            "{flag} is offered to the launcher but nothing implements it"
        );
        assert!(!is_supported(flag));
    }
    assert!(is_supported("--max-size"));
}

#[test]
fn a_recording_path_is_stamped_at_its_last_dot() {
    let mut cfg = PanelConfig::default();
    cfg.record_path = "/tmp/a.b/session.mkv".into();
    assert_eq!(cfg.record_path_at(1700000000), "/tmp/a.b/session-1700000000.mkv");
    cfg.record_path = "/tmp/capture".into();
    assert_eq!(cfg.record_path_at(0), "/tmp/capture-0");
    cfg.record_timestamp = false;
    assert_eq!(cfg.record_path_at(5), "/tmp/capture");
}

#[test]
fn a_flag_is_named_by_what_comes_before_its_value() {
    assert_eq!(flag_name("--max-size=1024"), "--max-size");
    assert_eq!(flag_name("--otg"), "--otg");
    let flags = vec!["--otg".to_string(), "--max-size=1".to_string(), "--video-bit-rate=2K".to_string()];
    let (accepted, dropped) = client_args(&flags);
    assert_eq!(accepted, vec!["--max-size=1".to_string(), "--video-bit-rate=2000".to_string()]);
    assert_eq!(dropped, vec!["--otg".to_string()]);
    assert_eq!(command_line(&flags, &[]), "scrcpy --otg --max-size=1 --video-bit-rate=2K");
}

#[test]
fn the_status_line_names_the_device_and_counts_the_flags() {
    let mut cfg = PanelConfig::default();
    assert_eq!(cfg.status_line(0), format!("cihaz seçilmedi · 0 bayrak · {} + {}", cfg.video_codec, cfg.audio_codec));
    cfg.serial = "R58M".into();
    cfg.max_size = "1024".into();
    cfg.no_audio = true;
    assert_eq!(cfg.status_line(1), format!("R58M · 3 bayrak · {}", cfg.video_codec));
    assert_eq!(cfg.status_line(3), format!("3 cihaz · 3 bayrak · {}", cfg.video_codec));
}

#[test]
fn the_bare_line_is_the_line_for_no_device() {
    let mut cfg = PanelConfig::default();
    cfg.video_bit_rate = "12M".into();
    cfg.audio_bit_rate = "96K".into();
    cfg.record_enabled = true;
    cfg.record_path = "rec.mp4".into();
    let line = cfg.to_command_line_at(1_700_000_000);
    assert_eq!(line, cfg.to_command_line_for_at(&[], 1_700_000_000));
    assert!(line.contains("--video-bit-rate=12M"));
    assert!(line.contains("--audio-bit-rate=96K"));
    assert!(line.contains("--record=rec-1700000000.mp4"));
    assert_eq!(PanelConfig::default().to_command_line_at(0), "scrcpy");
}

#[test]
fn every_flag_is_an_option() {
    let mut cfg = PanelConfig::default();
    cfg.video_source = "camera".into();
    cfg.camera_id = "1".into();
    cfg.camera_high_speed = true;
    cfg.tcpip_enabled = true;
    cfg.tcpip_addr = "192.168.1.2".into();
    cfg.record_enabled = true;
    cfg.record_path = "a.mkv".into();
    cfg.record_format = "mkv".into();
    cfg.fullscreen = true;
    cfg.new_display_enabled = true;
    let flags = cfg.to_flags_at(5);
    assert!(!flags.is_empty());
    for flag in &flags {
        assert!(flag.starts_with("--"), "{flag}");
    }
    assert!(flags.contains(&"--tcpip=192.168.1.2".to_string()));
    assert!(flags.contains(&"--record-format=mkv".to_string()));
    cfg.tcpip_addr = String::new();
    assert!(!cfg.to_flags_at(5).iter().any(|f| f.starts_with("--tcpip")));
}

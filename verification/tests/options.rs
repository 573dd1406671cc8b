use scrcpy_panel::option_values::{bit_rate, hex_colour, pauses_on_exit, rgb_from_hex};
use scrcpy_panel::options::Options;

/// Options as the command line leaves them when given these settings.
fn with(set: impl FnOnce(&mut Options)) -> Options {
    let mut opts = Options::default();
    set(&mut opts);
    opts
}

fn defaults() -> Options {
    Options::default()
}

fn orientation_shorthand() {
    let opts = with(|o| o.orientation = 90);
    assert_eq!(opts.display_rotation(), (90, false));
    assert_eq!(opts.record_rotation(), 90);

    let opts = with(|o| {
        o.orientation = 90;
        o.record_orientation = Some("180".to_string());
    });
    assert_eq!(opts.display_rotation(), (90, false), "the window keeps it");
    assert_eq!(opts.record_rotation(), 180, "the file takes the specific one");

    let opts = with(|o| {
        o.orientation = 90;
        o.display_orientation = Some("270".to_string());
    });
    assert_eq!(opts.display_rotation(), (270, false));
    assert_eq!(opts.record_rotation(), 90, "the file keeps it");
}

fn flips() {
    let shown = |value: &str| with(|o| o.display_orientation = Some(value.to_string())).display_rotation();
    assert_eq!(shown("flip0"), (0, true));
    assert_eq!(shown("flip270"), (270, true));
    assert_eq!(shown("180"), (180, false));
}

fn no_rotation() {
    let opts = defaults();
    assert_eq!(opts.display_rotation(), (0, false));
    assert_eq!(opts.record_rotation(), 0);
}

fn no_window() {
    assert!(defaults().video_playback());
    assert!(!with(|o| o.no_window = true).video_playback());
    assert!(!with(|o| o.no_video_playback = true).video_playback());
    assert!(!with(|o| o.no_video = true).video_playback());
}

fn the_pause() {
    assert_eq!(defaults().pause_on_exit, "false");

    assert!(pauses_on_exit("true", false));
    assert!(pauses_on_exit("true", true));
    assert!(!pauses_on_exit("false", true));
    assert!(pauses_on_exit("if-error", true));
    assert!(!pauses_on_exit("if-error", false));
}

fn short_colours() {
    assert_eq!(rgb_from_hex("#abc"), Some((0xaa, 0xbb, 0xcc)));
    assert_eq!(rgb_from_hex("#aabbcc"), Some((0xaa, 0xbb, 0xcc)));
    assert_eq!(rgb_from_hex("222"), Some((0x22, 0x22, 0x22)), "the hash is optional");
    assert_eq!(rgb_from_hex("#FFFFFF"), Some((255, 255, 255)), "case does not matter");
}

fn bad_colours() {
    for value in ["#ab", "#abcd", "#gggggg", "", "#", "red"] {
        assert_eq!(rgb_from_hex(value), None, "{value} should not be a colour");
        assert!(hex_colour(value).is_err(), "--background-color={value} should not have parsed");
    }
}

fn the_fit() {
    assert_eq!(defaults().render_fit_mode(), "letterbox");
    assert_eq!(with(|o| o.flex_display = true).render_fit_mode(), "unscaled");
    assert_eq!(
        with(|o| {
            o.flex_display = true;
            o.render_fit = Some("letterbox".to_string());
        })
        .render_fit_mode(),
        "letterbox",
        "asking for one wins over the default"
    );
    assert_eq!(with(|o| o.render_fit = Some("stretched".to_string())).render_fit_mode(), "stretched");
}

fn key_repeat() {
    assert!(defaults().key_repeat_forwarded());
    assert!(with(|o| o.forward_key_repeat = true).key_repeat_forwarded());
    assert!(!with(|o| o.no_key_repeat = true).key_repeat_forwarded());
}

#[test]
fn options_orientation_is_the_shorthand_for_both() {
    orientation_shorthand();
}

#[test]
fn derived_orientation_is_the_shorthand_for_both() {
    orientation_shorthand();
}

#[test]
fn options_a_flip_is_a_rotation_with_a_mirror() {
    flips();
}

#[test]
fn derived_a_flip_is_a_rotation_with_a_mirror() {
    flips();
}

#[test]
fn options_nothing_given_means_no_rotation() {
    no_rotation();
}

#[test]
fn derived_nothing_given_means_no_rotation() {
    no_rotation();
}

#[test]
fn options_no_window_is_no_playback() {
    no_window();
}

#[test]
fn derived_no_window_is_no_playback() {
    no_window();
}

#[test]
fn options_the_pause_reads_the_run_only_when_it_is_asked_to() {
    the_pause();
}

#[test]
fn values_the_pause_reads_the_run_only_when_it_is_asked_to() {
    the_pause();
}

#[test]
fn options_a_short_colour_is_the_long_one_with_its_digits_doubled() {
    short_colours();
}

#[test]
fn values_a_short_colour_is_the_long_one_with_its_digits_doubled() {
    short_colours();
}

#[test]
fn options_a_colour_that_is_not_one_is_refused() {
    bad_colours();
}

#[test]
fn values_a_colour_that_is_not_one_is_refused() {
    bad_colours();
}

#[test]
fn options_the_fit_follows_the_flex_display_unless_it_is_asked_for() {
    the_fit();
}

#[test]
fn derived_the_fit_follows_the_flex_display_unless_it_is_asked_for() {
    the_fit();
}

#[test]
fn options_a_held_key_is_forwarded_unless_the_negative_switch_is_given() {
    key_repeat();
}

#[test]
fn derived_a_held_key_is_forwarded_unless_the_negative_switch_is_given() {
    key_repeat();
}

#[test]
fn audio_playback_reads_the_flags_that_turn_it_off() {
    assert!(defaults().audio_playback());
    assert!(!with(|o| o.no_audio = true).audio_playback());
    assert!(!with(|o| o.no_audio_playback = true).audio_playback());
    assert!(!with(|o| o.no_playback = true).audio_playback());
}

#[test]
fn a_bare_port_is_a_range_of_one() {
    let at = |value: &str| with(|o| o.port_range = value.to_string()).port_range_parsed();
    assert_eq!(at("27183:27199"), (27183, 27199));
    assert_eq!(at("27500"), (27500, 27500), "a port on its own is that port");
    assert_eq!(at(" 27500 "), (27500, 27500));
    assert_eq!(at("27500:27502"), (27500, 27502));
    assert_eq!(at("nonsense"), (27183, 27199));
    assert_eq!(at("27199:27183"), (27183, 27199), "a range that runs backwards");
    assert_eq!(at("99999"), (27183, 27199), "beyond a port number");
}

#[test]
fn a_bit_rate_takes_the_suffix_scrcpy_writes() {
    let rate = |value: &str| bit_rate(value);
    assert_eq!(rate("8M").unwrap(), 8_000_000);
    assert_eq!(rate("128K").unwrap(), 128_000);
    assert_eq!(rate("2m").unwrap(), 2_000_000, "either case");
    assert_eq!(rate("4000000").unwrap(), 4_000_000, "and no suffix at all");

    assert_eq!(bit_rate("96K").unwrap(), 96_000);

    assert!(rate("8G").is_err(), "a suffix it does not know");
    assert!(rate("eight").is_err(), "not a number");
    assert!(
        rate("9999M").is_err(),
        "a number so large that expanding it would wrap, refused rather than folded"
    );
}

#[test]
fn the_default_bit_rates_are_scrcpys() {
    let opts = defaults();
    assert_eq!(opts.video_bit_rate, 8_000_000);
    assert_eq!(opts.audio_bit_rate, 128_000);
    assert!(opts.video_enabled() && opts.audio_enabled() && opts.control_enabled());
    assert!(!with(|o| o.no_video = true).video_enabled());
}

#[test]
fn a_colour_is_handed_back_as_it_was_given() {
    assert_eq!(hex_colour("#ABC"), Ok("#ABC".to_string()));
    assert_eq!(
        hex_colour("red"),
        Err("`red` is not a colour like #RGB or #RRGGBB".to_string())
    );
}

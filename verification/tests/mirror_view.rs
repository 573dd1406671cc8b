use scrcpy_panel::mirror_host::Orientation;
use scrcpy_panel::mirror_view::{
    backdrop, initial_view, input_filters, key_inject_mode_of, mouse_bind_of, newest, pump_round, view_action,
    PumpRound, ViewAction, ViewEffect, ViewState,
};
use scrcpy_panel::options::Options;

fn start() -> ViewState {
    ViewState { orientation: Orientation::Normal, flipped: false, paused: false }
}

#[test]
fn a_vertical_flip_is_a_horizontal_one_turned_half_way() {
    let (s, effect) = view_action(start(), ViewAction::FlipVertical);
    assert_eq!(effect, ViewEffect::Geometry);
    assert_eq!(s, ViewState { orientation: Orientation::Rot180, flipped: true, paused: false });
    let (back, _) = view_action(s, ViewAction::FlipVertical);
    assert_eq!(back, start());
}

#[test]
fn turning_the_picture_is_a_new_geometry() {
    let (s, effect) = view_action(start(), ViewAction::RotateCw);
    assert_eq!((s.orientation, effect), (Orientation::Rot90, ViewEffect::Geometry));
    let (s, _) = view_action(s, ViewAction::RotateCcw);
    assert_eq!(s, start());
    let (s, _) = view_action(start(), ViewAction::RotateCcw);
    assert_eq!(s.orientation, Orientation::Rot270);
}

#[test]
fn pausing_freezes_the_picture_and_nothing_else() {
    let (s, effect) = view_action(start(), ViewAction::Pause);
    assert_eq!((s.paused, effect), (true, ViewEffect::Nothing));
    let (s, _) = view_action(s, ViewAction::Unpause);
    assert_eq!(s, start());
    assert_eq!(view_action(start(), ViewAction::ToggleFps), (start(), ViewEffect::ToggleFps));
}

#[test]
fn the_window_starts_as_the_command_line_says() {
    let mut o = Options::default();
    o.display_orientation = Some("flip90".to_string());
    assert_eq!(initial_view(&o), ViewState { orientation: Orientation::Rot90, flipped: true, paused: false });
    let mut o = Options::default();
    o.orientation = 270;
    assert_eq!(initial_view(&o).orientation, Orientation::Rot270);
}

#[test]
fn the_shorthands_win_over_the_long_forms() {
    let mut o = Options::default();
    o.key_inject_mode = "mixed".to_string();
    assert_eq!(key_inject_mode_of(&o), "mixed");
    o.prefer_text = true;
    assert_eq!(key_inject_mode_of(&o), "text");
    o.raw_key_events = true;
    assert_eq!(key_inject_mode_of(&o), "raw");

    o.mouse_bind = Some("+bhsn".to_string());
    assert_eq!(mouse_bind_of(&o), Some("+bhsn"));
    o.forward_all_clicks = true;
    assert_eq!(mouse_bind_of(&o), Some("++++"));
    assert_eq!(mouse_bind_of(&Options::default()), None);

    assert_eq!(input_filters(&Options::default()), (true, true, false));
    o.no_mouse_hover = true;
    o.video_source = "camera".to_string();
    assert_eq!(input_filters(&o), (true, false, true));

    o.background_color = Some("#102030".to_string());
    assert_eq!(backdrop(&o), Some((0x10, 0x20, 0x30)));
    o.background_color = Some("nope".to_string());
    assert_eq!(backdrop(&o), None);
}

#[test]
fn the_pump_draws_the_newest_frame_unless_paused() {
    let (last, older) = newest(vec![1, 2, 3]);
    assert_eq!((last, older), (Some(3), vec![1, 2]));
    assert_eq!(newest::<u8>(vec![]), (None, vec![]));

    assert_eq!(
        pump_round((800, 600), (800, 600), true, false, false),
        PumpRound { resized: false, draw: true, goes_live: true }
    );
    assert_eq!(
        pump_round((800, 600), (600, 800), true, false, true),
        PumpRound { resized: true, draw: true, goes_live: false }
    );
    assert_eq!(
        pump_round((800, 600), (800, 600), true, true, true),
        PumpRound { resized: false, draw: false, goes_live: false }
    );
    assert!(!pump_round((1, 1), (1, 1), false, false, false).draw);
}

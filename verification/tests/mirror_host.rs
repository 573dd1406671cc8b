use scrcpy_panel::mirror_host::{optimal_window_size, FlexDisplay, Orientation};

#[test]
fn a_size_is_sent_once_it_stops_changing() {
    let mut flex = FlexDisplay::new();
    assert_eq!(flex.poll((800, 600), Orientation::Normal), None, "first sighting");
    assert_eq!(flex.poll((820, 600), Orientation::Normal), None, "still moving");
    assert_eq!(flex.poll((820, 600), Orientation::Normal), Some((820, 600)));
    assert_eq!(flex.poll((820, 600), Orientation::Normal), None, "the device knows");
}

#[test]
fn a_quarter_turn_swaps_the_size_and_is_worth_sending() {
    let mut flex = FlexDisplay::new();
    flex.poll((800, 600), Orientation::Normal);
    assert_eq!(flex.poll((800, 600), Orientation::Normal), Some((800, 600)));

    flex.poll((800, 600), Orientation::Rot90);
    assert_eq!(flex.poll((800, 600), Orientation::Rot90), Some((600, 800)));
}

#[test]
fn a_half_turn_asks_for_nothing() {
    let mut flex = FlexDisplay::new();
    flex.poll((800, 600), Orientation::Normal);
    assert_eq!(flex.poll((800, 600), Orientation::Normal), Some((800, 600)));

    flex.poll((800, 600), Orientation::Rot180);
    assert_eq!(flex.poll((800, 600), Orientation::Rot180), None);
}

#[test]
fn a_window_with_no_size_is_not_asked_for() {
    let mut flex = FlexDisplay::new();
    assert_eq!(flex.poll((0, 600), Orientation::Normal), None);
    assert_eq!(flex.poll((0, 600), Orientation::Normal), None);
    assert_eq!(flex.poll((800, 0), Orientation::Normal), None);
    assert_eq!(flex.poll((800, 0), Orientation::Normal), None);
}

#[test]
fn a_quarter_turn_and_back_is_no_turn() {
    for o in [Orientation::Normal, Orientation::Rot90, Orientation::Rot180, Orientation::Rot270] {
        assert_eq!(o.rotate_cw().rotate_ccw(), o);
        assert_eq!(o.rotate_ccw().rotate_cw(), o);
    }
    assert_eq!(Orientation::Rot270.rotate_cw(), Orientation::Normal);
    assert_eq!(Orientation::from_degrees(450), Orientation::Rot90);
    assert_eq!(Orientation::Rot270.degrees(), 270);
    assert!(Orientation::Rot90.swaps_dimensions());
    assert!(!Orientation::Rot180.swaps_dimensions());
}

#[test]
fn the_window_fits_the_frame_as_it_is_turned() {
    assert_eq!(optimal_window_size(1080, 2400, Orientation::Normal), (442, 984));
    assert_eq!(optimal_window_size(1080, 2400, Orientation::Rot90), (1824, 820));
    assert_eq!(optimal_window_size(800, 600, Orientation::Normal), (800, 600));
    assert_eq!(optimal_window_size(0, 600, Orientation::Normal), (1, 1));
}

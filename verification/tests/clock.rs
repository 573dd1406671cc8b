use scrcpy_panel::clock::{Clock, RANGE};

#[test]
fn the_first_point_is_the_whole_estimate() {
    let mut clock = Clock::new();
    assert!(!clock.is_set());
    assert_eq!(clock.to_system_time(1_000), None);

    clock.update(5_000_000, 1_000_000);
    assert!(clock.is_set());
    assert_eq!(clock.to_system_time(1_000_000), Some(5_000_000));
    assert_eq!(clock.to_system_time(1_016_667), Some(5_016_667));
}

#[test]
fn a_steady_offset_stays_and_a_moved_one_is_walked_to() {
    let mut clock = Clock::new();
    for i in 0..64 {
        clock.update(4_000_000 + i * 16_667, i * 16_667);
    }
    assert_eq!(clock.to_system_time(0), Some(4_000_000));

    clock.update(5_000_000, 0);
    let moved = clock.to_system_time(0).unwrap() - 4_000_000;
    assert_eq!(moved, 1_000_000 / RANGE);
}

#[test]
fn a_negative_offset_divides_the_way_c_does() {
    let mut clock = Clock::new();
    clock.update(0, 1_000_000);
    assert_eq!(clock.to_system_time(1_000_000), Some(0));

    clock.update(1, 1_000_000);
    let (held, fresh) = (1i64, 31i64);
    let expected = (-1_000_000i64 * held + -999_999i64 * fresh) / 32;
    assert_eq!(clock.to_system_time(0), Some(expected));
    assert!(expected > -1_000_000, "it must not have floored past the pair");
}

#[test]
fn the_second_point_weighs_one_part_in_thirty_two_after_the_first() {
    // Two points: the first held with weight 1, the second with 31.
    let mut clock = Clock::new();
    clock.update(1_000, 0);
    clock.update(2_000, 0);
    assert_eq!(clock.to_system_time(0), Some((1_000 + 2_000 * 31) / 32));
}

#[test]
fn a_clock_that_is_cloned_keeps_its_estimate() {
    let mut clock = Clock::new();
    clock.update(7_000, 2_000);
    let copy = clock.clone();
    assert_eq!(copy.to_system_time(0), Some(5_000));
    assert_eq!(Clock::default().to_system_time(0), None);
}

#[test]
fn a_clock_is_set_by_its_first_pair_and_stays_set() {
    let mut clock = Clock::new();
    assert!(!clock.is_set());
    assert_eq!(clock.to_system_time(5), None);
    for k in 0..40 {
        clock.update(1_000_000 + k, 1_000 + k);
        assert!(clock.is_set());
        assert!(clock.to_system_time(0).is_some());
    }
}

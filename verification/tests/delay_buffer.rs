use scrcpy_panel::clock::Clock;
use scrcpy_panel::delay_buffer::{deadline_in_range, note_frame, release_deadline, time_to_wait};

#[test]
fn a_frame_is_due_on_its_own_timestamp_plus_the_delay() {
    let mut clock = Clock::new();
    // The device's clock is 1 s behind this one.
    note_frame(&mut clock, Some(0), 1_000_000);
    note_frame(&mut clock, Some(60_000), 1_060_000);
    // Every point said the same, so the offset stays whole.
    assert_eq!(clock.to_system_time(0), Some(1_000_000));
    // Picked up at 1 s with a 120 ms delay: its own time plus the delay is
    // past the ceiling, which wins.
    let ceiling = 1_000_000 + 120_000;
    assert_eq!(release_deadline(&clock, Some(60_000), 120_000, ceiling), ceiling);
    // With a later ceiling it is its own time plus the delay.
    assert_eq!(release_deadline(&clock, Some(60_000), 120_000, 5_000_000), 1_000_000 + 60_000 + 120_000);
}

#[test]
fn a_burst_is_spread_back_out_to_its_own_spacing() {
    let mut clock = Clock::new();
    for n in 0..3 {
        note_frame(&mut clock, Some(n * 60_000), 1_000_000 + n * 60_000);
    }
    let at: Vec<i64> = (0..3)
        .map(|n| release_deadline(&clock, Some(n * 60_000), 120_000, i64::MAX))
        .collect();
    assert_eq!(at[1] - at[0], 60_000);
    assert_eq!(at[2] - at[1], 60_000);
}

#[test]
fn a_frame_with_no_timestamp_goes_out_at_the_ceiling() {
    let clock = Clock::new();
    assert_eq!(release_deadline(&clock, None, 100_000, 100_000), 100_000);
    // Before the clock has seen a timestamp there is nothing to schedule on.
    assert_eq!(release_deadline(&clock, Some(5), 100_000, 100_000), 100_000);
}

#[test]
fn a_frame_whose_deadline_has_passed_goes_out_at_once() {
    let mut clock = Clock::new();
    note_frame(&mut clock, Some(0), 0);
    let deadline = release_deadline(&clock, Some(0), 100, 10_000);
    assert_eq!(deadline, 100);
    assert_eq!(time_to_wait(deadline, 500), None);
    assert_eq!(time_to_wait(deadline, 100), None);
    assert_eq!(time_to_wait(deadline, 40), Some(60));
    assert_eq!(time_to_wait(i64::MAX, i64::MIN), Some(u64::MAX));
}

#[test]
fn a_frame_with_no_timestamp_leaves_the_clock_alone() {
    let mut clock = Clock::new();
    note_frame(&mut clock, None, 1_000);
    assert!(!clock.is_set());
}

#[test]
fn a_timestamp_beyond_the_clock_is_caught_before_it_is_used() {
    let mut clock = Clock::new();
    assert!(!clock.can_update(0, i64::MIN + 1), "a sample this far off overflows its weighting");
    assert!(!clock.can_update(i64::MAX, -1));
    assert!(clock.can_update(1_000, 0));
    note_frame(&mut clock, Some(0), 1_000);
    assert!(clock.can_convert(0));
    assert!(!clock.can_convert(i64::MAX));
    assert!(!deadline_in_range(&clock, Some(i64::MAX - 1_000), 1));
    assert!(deadline_in_range(&clock, Some(0), 1));
    assert!(deadline_in_range(&clock, None, 1));
}

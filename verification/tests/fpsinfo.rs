use gravity_sim::clock::{elapsed, NANOS_PER_MILLI, NANOS_PER_SECOND};
use gravity_sim::fpsinfo::{due_after, FpsInfo, DEFAULT_FPS};

#[test]
fn elapsed_is_the_difference_of_two_readings() {
    assert_eq!(elapsed(10, 25), 15);
    assert_eq!(elapsed(25, 25), 0);
    assert_eq!(elapsed(0, u64::MAX), u64::MAX);
}

#[test]
fn elapsed_is_zero_when_the_clock_went_back() {
    assert_eq!(elapsed(25, 10), 0);
    assert_eq!(elapsed(u64::MAX, 0), 0);
}

#[test]
fn clock_units() {
    assert_eq!(NANOS_PER_SECOND, 1_000_000_000);
    assert_eq!(NANOS_PER_MILLI, 1_000_000);
    assert_eq!(DEFAULT_FPS, 60);
}

#[test]
fn due_after_adds_the_interval() {
    assert_eq!(due_after(1_000, 16_666_666), 16_667_666);
    assert_eq!(due_after(0, 0), 0);
}

#[test]
fn due_after_stops_at_the_largest_reading() {
    assert_eq!(due_after(u64::MAX, 1), u64::MAX);
    assert_eq!(due_after(u64::MAX - 5, 5), u64::MAX);
    assert_eq!(due_after(u64::MAX - 5, 6), u64::MAX);
}

#[test]
fn schedule_starts_one_sixtieth_of_a_second_ahead() {
    let info = FpsInfo::starting_at(5_000_000_000);
    assert_eq!(info.update_time, 16_666_666);
    assert_eq!(info.next_update, 5_016_666_666);
}

#[test]
fn redraw_is_due_from_the_scheduled_reading_on() {
    let info = FpsInfo::starting_at(1_000);
    assert!(!info.should_redraw_at(1_000));
    assert!(!info.should_redraw_at(16_667_665));
    assert!(info.should_redraw_at(16_667_666));
    assert!(info.should_redraw_at(u64::MAX));
}

#[test]
fn drawing_moves_the_schedule_on() {
    let mut info = FpsInfo::starting_at(0);
    info.update_time_at(40_000_000);
    assert_eq!(info.next_update, 56_666_666);
    assert_eq!(info.update_time, 16_666_666);
}

#[test]
fn schedule_by_the_clock_is_not_due_at_once() {
    let mut info = FpsInfo::default();
    assert_eq!(info.update_time, NANOS_PER_SECOND / DEFAULT_FPS);
    assert!(!info.should_redraw());
    assert!(info.should_redraw_at(u64::MAX));
    let before = info.next_update;
    info.update_time();
    assert!(info.next_update >= before);
}

#[test]
fn schedule_by_the_clock_falls_due() {
    let info = FpsInfo { next_update: 0, update_time: 1 };
    assert!(info.should_redraw());
}

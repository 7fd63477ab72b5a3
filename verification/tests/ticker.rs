use pomodoro_tui::ticker::{Ticker, TICK_RATE_NANOS};

const MS: u64 = 1_000_000;

#[test]
fn period_is_200_milliseconds() {
    assert_eq!(TICK_RATE_NANOS, 200 * MS);
}

#[test]
fn timeout_is_what_is_left_of_the_period() {
    let t = Ticker::new(1_000 * MS);
    assert_eq!(t.timeout(1_000 * MS), 200 * MS);
    assert_eq!(t.timeout(1_050 * MS), 150 * MS);
    assert_eq!(t.timeout(1_199 * MS), MS);
    assert_eq!(t.timeout(1_200 * MS - 1), 1);
    assert_eq!(t.timeout(1_200 * MS), 0);
    assert_eq!(t.timeout(5_000 * MS), 0);
    assert_eq!(t.timeout(u64::MAX), 0);
}

#[test]
fn clock_that_reads_earlier_counts_as_no_time_passed() {
    let mut t = Ticker::new(1_000 * MS);
    assert_eq!(t.timeout(900 * MS), 200 * MS);
    assert!(!t.poll_tick(900 * MS));
    assert_eq!(t.last_tick, 1_000 * MS);
}

#[test]
fn tick_is_due_after_a_full_period() {
    let mut t = Ticker::new(0);
    assert!(!t.poll_tick(0));
    assert!(!t.poll_tick(199 * MS));
    assert!(!t.poll_tick(200 * MS - 1));
    assert_eq!(t.last_tick, 0);
    assert!(t.poll_tick(200 * MS));
    assert_eq!(t.last_tick, 200 * MS);
    assert!(!t.poll_tick(200 * MS));
    assert!(!t.poll_tick(399 * MS));
    assert!(t.poll_tick(400 * MS));
}

#[test]
fn late_tick_restarts_the_period_from_now() {
    let mut t = Ticker::new(0);
    assert!(t.poll_tick(730 * MS));
    assert_eq!(t.last_tick, 730 * MS);
    assert_eq!(t.timeout(730 * MS), 200 * MS);
    assert!(!t.poll_tick(800 * MS));
    assert!(!t.poll_tick(929 * MS));
    assert!(t.poll_tick(930 * MS));
}

#[test]
fn ticks_are_never_closer_than_a_period() {
    let mut t = Ticker::new(0);
    let mut last: Option<u64> = None;
    let mut now = 0u64;
    let mut ticks = 0;
    for step in 0..2_000u64 {
        now += (step * 7_919_000) % (90 * MS) + 1;
        if t.poll_tick(now) {
            if let Some(before) = last {
                assert!(now - before >= TICK_RATE_NANOS);
            }
            last = Some(now);
            ticks += 1;
        }
    }
    assert!(ticks > 100);
}

use alarm_integral::clock::{Timestamp, WaitDuration, MAX_SECS};
use alarm_integral::launch::{launch_mode, LaunchMode, CHILD_MARKER, EXIT_HANDED_OVER};
use alarm_integral::schedule::{ScheduleState, StepCounter, BASE_LINE_SECS, MAX_STEP};
use alarm_integral::text::decimal_text;

#[test]
fn first_three_waits_from_a_fresh_counter() {
    let mut counter = StepCounter::new();
    assert_eq!(counter.next_wait().num_minutes(), 1445);
    assert_eq!(counter.next_wait().num_minutes(), 1460);
    assert_eq!(counter.next_wait().num_minutes(), 1485);
    assert_eq!(counter.value, 3);
}

#[test]
fn nth_wait_follows_the_formula() {
    let mut counter = StepCounter::new();
    for n in 1u64..=200 {
        let wait = counter.next_wait();
        assert_eq!(wait.as_secs(), 60 * (5 * n * n + 1440));
        assert_eq!(wait.num_minutes(), 5 * n * n + 1440);
        assert_eq!(counter.value, n);
    }
}

#[test]
fn wait_is_exact_in_seconds() {
    let mut counter = StepCounter::resume(9);
    let wait = counter.next_wait();
    assert_eq!(wait, WaitDuration { secs: 116_400 });
    assert_eq!(wait.num_minutes(), 1940);
    assert_eq!(wait.num_hours(), 32);
}

#[test]
fn last_step_still_fits() {
    let mut counter = StepCounter::resume(MAX_STEP - 1);
    assert!(!counter.exhausted());
    let wait = counter.next_wait();
    assert_eq!(wait.as_secs(), 9_223_371_971_730_993_900);
    assert!(wait.as_secs() <= MAX_SECS);
    assert_eq!(counter.value, 175_341_305);
    assert!(counter.exhausted());
}

#[test]
fn fresh_counter_is_not_exhausted() {
    assert!(!StepCounter::new().exhausted());
    assert!(StepCounter::resume(MAX_STEP).exhausted());
    assert!(StepCounter::resume(u64::MAX).exhausted());
}

#[test]
fn baseline_is_the_fixed_instant() {
    let state = ScheduleState::baseline();
    assert_eq!(state.step, 0);
    assert_eq!(state.last_fired, Timestamp { secs: 1_565_197_800, nanos: 0 });
    assert_eq!(BASE_LINE_SECS, 1_565_197_800);
}

#[test]
fn timestamp_new_checks_both_parts() {
    assert_eq!(Timestamp::new(5, 7), Some(Timestamp { secs: 5, nanos: 7 }));
    assert_eq!(Timestamp::new(0, 999_999_999), Some(Timestamp { secs: 0, nanos: 999_999_999 }));
    assert_eq!(Timestamp::new(0, 1_000_000_000), None);
    assert_eq!(Timestamp::new(MAX_SECS, 0), Some(Timestamp { secs: MAX_SECS, nanos: 0 }));
    assert_eq!(Timestamp::new(MAX_SECS + 1, 0), None);
}

#[test]
fn timestamps_are_ordered_by_seconds_then_nanoseconds() {
    let a = Timestamp { secs: 10, nanos: 5 };
    let b = Timestamp { secs: 10, nanos: 6 };
    let c = Timestamp { secs: 11, nanos: 0 };
    assert!(b.is_after(&a));
    assert!(!a.is_after(&b));
    assert!(!a.is_after(&a));
    assert!(c.is_after(&b));
    assert!(!b.is_after(&c));
    assert_eq!(a.later(b), b);
    assert_eq!(b.later(a), b);
    assert_eq!(c.later(a), c);
    assert_eq!(a.later(a), a);
}

#[test]
fn durations_split_into_hours_and_minutes() {
    let wait = WaitDuration { secs: 86_700 };
    assert_eq!(wait.as_secs(), 86_700);
    assert_eq!(wait.num_minutes(), 1445);
    assert_eq!(wait.num_hours(), 24);
    assert_eq!(wait.num_minutes() - wait.num_hours() * 60, 5);
    assert_eq!(WaitDuration { secs: 59 }.num_minutes(), 0);
    assert_eq!(WaitDuration { secs: 3599 }.num_hours(), 0);
}

#[test]
fn decimal_text_of_small_and_large_numbers() {
    assert_eq!(decimal_text(0), "0");
    assert_eq!(decimal_text(7), "7");
    assert_eq!(decimal_text(10), "10");
    assert_eq!(decimal_text(1_565_197_800), "1565197800");
    assert_eq!(decimal_text(u64::MAX), "18446744073709551615");
    for n in 0u64..2000 {
        assert_eq!(decimal_text(n), format!("{}", n));
    }
}

#[test]
fn bare_invocation_detaches() {
    assert_eq!(launch_mode(1), LaunchMode::Detach);
    assert_eq!(launch_mode(2), LaunchMode::Run);
    assert_eq!(launch_mode(5), LaunchMode::Run);
    assert_eq!(launch_mode(0), LaunchMode::Run);
    assert_eq!(CHILD_MARKER, "child");
    assert_eq!(EXIT_HANDED_OVER, 0);
}

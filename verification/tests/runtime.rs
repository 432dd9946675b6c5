//! Unit-level behaviour of the runtime pieces: timers, the single-fire
//! guard and subscription matching.

use gromnie_scripts::guard::SingleFireGuard;
use gromnie_scripts::subscription::SubscriptionSet;
use gromnie_scripts::timers::TimerFacility;

#[test]
fn timer_fires_on_first_tick_reaching_delay_and_only_once() {
    let mut timers = TimerFacility::new();
    let id = timers.schedule(5, "greeting");
    assert_eq!(id, 0);
    assert_eq!(timers.len(), 1);

    // Before the cumulative elapsed time reaches five seconds: not elapsed.
    for _ in 0..4 {
        timers.advance(1000);
        assert!(!timers.check(id));
    }
    // The first tick whose cumulative elapsed time reaches the delay.
    timers.advance(1000);
    assert!(timers.check(id));

    // Every later check of the same handle reports false.
    assert!(!timers.check(id));
    timers.advance(1000);
    assert!(!timers.check(id));
}

#[test]
fn timer_with_coarse_tick_fires_past_delay() {
    let mut timers = TimerFacility::new();
    let id = timers.schedule(2, "coarse");
    // One big tick overshooting the delay still elapses the timer.
    timers.advance(10_000);
    assert!(timers.check(id));
    assert!(!timers.check(id));
}

#[test]
fn timers_are_independent_and_handles_monotonic() {
    let mut timers = TimerFacility::new();
    let a = timers.schedule(1, "a");
    let b = timers.schedule(3, "b");
    assert!(a < b);

    timers.advance(1000);
    assert!(timers.check(a));
    assert!(!timers.check(b));

    timers.advance(2000);
    assert!(timers.check(b));
    assert!(!timers.check(a));
}

#[test]
fn unknown_timer_handle_reports_false() {
    let mut timers = TimerFacility::new();
    assert!(!timers.check(42));
    let id = timers.schedule(0, "now");
    // A zero-second delay is elapsed on the very first check.
    assert!(timers.check(id));
}

#[test]
fn single_fire_guard_grants_only_the_first_claim() {
    let mut guard = SingleFireGuard::new();
    assert!(!guard.has_fired());
    assert!(guard.test_and_set());
    assert!(guard.has_fired());
    assert!(!guard.test_and_set());
    assert!(!guard.test_and_set());
    assert!(guard.has_fired());
}

#[test]
fn subscription_matches_kind_and_wildcard() {
    let direct = SubscriptionSet::from_kinds(vec![1, 3]);
    assert!(direct.matches(1));
    assert!(direct.matches(3));
    assert!(!direct.matches(2));

    let all = SubscriptionSet::from_kinds(vec![0]);
    assert!(all.matches(1));
    assert!(all.matches(2));
    assert!(all.matches(999));

    let empty = SubscriptionSet::from_kinds(vec![]);
    assert!(!empty.matches(1));
}

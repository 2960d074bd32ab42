use std::cmp::Ordering;
use std::sync::atomic::{AtomicUsize, Ordering as AtomicOrdering};
use std::sync::Arc;

use timerfd_source::error::TimerError;
use timerfd_source::source::{finish_dispatch, SourceRegistry, TimerGSource, TimerGSourceCallback};
use timerfd_source::time::{itimerspec, timespec};
use timerfd_source::timer::{Timer, TimerFD};

fn ts(tv_sec: i64, tv_nsec: i64) -> timespec {
    timespec { tv_sec, tv_nsec }
}

fn fresh_timer(fd: i32) -> Timer {
    Timer::new(TimerFD::new(fd, 0).unwrap())
}

fn armed_timer(initial_ms: i64, interval_ms: i64) -> Timer {
    let mut timer = fresh_timer(3);
    timer.set_interval(initial_ms, interval_ms).unwrap();
    timer.start().unwrap();
    timer.finish_start(Ok(itimerspec::zero())).unwrap();
    timer
}

struct Counting {
    calls: Arc<AtomicUsize>,
    keep: bool,
}

impl TimerGSourceCallback for Counting {
    fn callback(&mut self, _timer: &mut Timer) -> bool {
        self.calls.fetch_add(1, AtomicOrdering::SeqCst);
        self.keep
    }
}

struct Stopping;

impl TimerGSourceCallback for Stopping {
    fn callback(&mut self, timer: &mut Timer) -> bool {
        if timer.stop().is_ok() {
            timer.finish_stop(Ok(itimerspec::zero())).unwrap();
        }
        true
    }
}

#[test]
fn from_milliseconds_splits_seconds_and_nanoseconds() {
    assert_eq!(timespec::from_milliseconds(1500), ts(1, 500_000_000));
    assert_eq!(timespec::from_milliseconds(0), ts(0, 0));
    assert_eq!(timespec::from_milliseconds(999), ts(0, 999_000_000));
    assert_eq!(timespec::from_milliseconds(250), ts(0, 250_000_000));
    assert_eq!(timespec::from_milliseconds(-1500), ts(-1, -500_000_000));
    assert_eq!(timespec::from_milliseconds(-1000), ts(-1, 0));
    assert_eq!(timespec::from_milliseconds(i64::MAX), ts(i64::MAX / 1000, 807_000_000));
    assert_eq!(timespec::from_milliseconds(i64::MIN), ts(i64::MIN / 1000, -808_000_000));
}

#[test]
fn validity_bounds() {
    assert!(ts(0, 0).is_valid());
    assert!(ts(5, 999_999_999).is_valid());
    assert!(!ts(5, 1_000_000_000).is_valid());
    assert!(!ts(5, -1).is_valid());
    assert_eq!(ts(1, -1).check_valid(), Err(TimerError::InvalidTimeValue));
    assert_eq!(ts(1, 1).check_valid(), Ok(()));
}

#[test]
fn compare_is_a_total_order() {
    let a = ts(1, 500);
    let b = ts(1, 600);
    let c = ts(2, 0);
    assert_eq!(a.compare(&b), Ok(Ordering::Less));
    assert_eq!(b.compare(&a), Ok(Ordering::Greater));
    assert_eq!(b.compare(&c), Ok(Ordering::Less));
    assert_eq!(a.compare(&c), Ok(Ordering::Less));
    assert_eq!(c.compare(&a), Ok(Ordering::Greater));
    assert_eq!(a.compare(&ts(1, 500)), Ok(Ordering::Equal));
    assert_eq!(ts(-1, 999_999_999).compare(&ts(0, 0)), Ok(Ordering::Less));
}

#[test]
fn compare_rejects_invalid_operands() {
    let good = ts(1, 0);
    assert_eq!(ts(0, 1_000_000_000).compare(&good), Err(TimerError::InvalidTimeValue));
    assert_eq!(good.compare(&ts(0, -5)), Err(TimerError::InvalidTimeValue));
    assert_eq!(ts(0, -5).compare(&ts(0, -5)), Err(TimerError::InvalidTimeValue));
}

#[test]
fn itimerspec_zero_and_validity() {
    let zero = itimerspec::zero();
    assert!(zero.is_disarmed());
    assert_eq!(zero.check_valid(), Ok(()));
    let bad = itimerspec { it_interval: ts(0, -1), it_value: ts(1, 0) };
    assert!(!bad.is_disarmed());
    assert_eq!(bad.check_valid(), Err(TimerError::InvalidTimeValue));
    let bad_value = itimerspec { it_interval: ts(0, 0), it_value: ts(0, 2_000_000_000) };
    assert_eq!(bad_value.check_valid(), Err(TimerError::InvalidTimeValue));
}

#[test]
fn timerfd_creation_result() {
    assert_eq!(TimerFD::new(-1, 24).err(), Some(TimerError::ResourceCreationFailed(24)));
    assert_eq!(TimerFD::new(7, 0).unwrap().fd(), 7);
}

#[test]
fn timerfd_interprets_kernel_answers() {
    let previous = itimerspec { it_interval: ts(0, 0), it_value: ts(2, 5) };
    assert_eq!(TimerFD::settime(Ok(previous)), Ok(previous));
    assert_eq!(TimerFD::settime(Err(22)), Err(TimerError::ArmFailed(22)));
    assert_eq!(TimerFD::gettime(Ok(previous)), Ok(previous));
    assert_eq!(TimerFD::gettime(Err(9)), Err(TimerError::QueryFailed(9)));
}

#[test]
fn new_timer_is_idle_and_zero() {
    let timer = fresh_timer(4);
    assert!(!timer.is_active());
    assert!(timer.current() == itimerspec::zero());
    assert_eq!(timer.timerfd().fd(), 4);
}

#[test]
fn oneshot_start_installs_configured_value() {
    let mut timer = fresh_timer(3);
    timer.set_oneshot(1500).unwrap();
    let installed = timer.start().unwrap();
    assert_eq!(installed.it_value, ts(1, 500_000_000));
    assert_eq!(installed.it_interval, ts(0, 0));
    assert_eq!(installed.it_value.compare(&ts(1, 500_000_000)), Ok(Ordering::Equal));
    assert_eq!(installed.it_value.compare(&ts(0, 0)), Ok(Ordering::Greater));
    assert_eq!(timer.finish_start(Ok(itimerspec::zero())), Ok(()));
    assert!(timer.is_active());
    let reported = itimerspec { it_interval: ts(0, 0), it_value: ts(1, 499_000_000) };
    let queried = TimerFD::gettime(Ok(reported)).unwrap();
    assert_ne!(queried.it_value.compare(&ts(1, 500_000_000)), Ok(Ordering::Greater));
    assert_eq!(queried.it_value.compare(&ts(0, 0)), Ok(Ordering::Greater));
    assert!(queried.it_interval == itimerspec::zero().it_interval);
}

#[test]
fn start_twice_fails_with_already_armed() {
    let timer = armed_timer(1000, 0);
    assert_eq!(timer.start(), Err(TimerError::AlreadyArmed));
}

#[test]
fn stop_while_idle_fails_with_not_armed() {
    let mut timer = fresh_timer(3);
    assert_eq!(timer.stop(), Err(TimerError::NotArmed));
    timer.set_interval(1000, 0).unwrap();
    assert_eq!(timer.stop(), Err(TimerError::NotArmed));
}

#[test]
fn configure_while_armed_fails() {
    let mut timer = armed_timer(1000, 250);
    let before = timer.current();
    assert_eq!(timer.set_interval(500, 0), Err(TimerError::ReconfigureWhileArmed));
    assert_eq!(timer.set_oneshot(500), Err(TimerError::ReconfigureWhileArmed));
    assert!(timer.current() == before);
    assert!(timer.is_active());
}

#[test]
fn configure_requires_positive_initial() {
    let mut timer = fresh_timer(3);
    assert_eq!(timer.set_interval(0, 0), Err(TimerError::NonPositiveInitial));
    assert_eq!(timer.set_interval(-5, 100), Err(TimerError::NonPositiveInitial));
    assert!(timer.current() == itimerspec::zero());
}

#[test]
fn start_rejects_invalid_interval() {
    let mut timer = fresh_timer(3);
    timer.set_interval(1000, -250).unwrap();
    assert_eq!(timer.current().it_interval, ts(0, -250_000_000));
    assert_eq!(timer.start(), Err(TimerError::InvalidTimeValue));
    assert!(!timer.is_active());
}

#[test]
fn failed_arm_leaves_timer_idle() {
    let mut timer = fresh_timer(3);
    timer.set_oneshot(10).unwrap();
    timer.start().unwrap();
    assert_eq!(timer.finish_start(Err(22)), Err(TimerError::ArmFailed(22)));
    assert!(!timer.is_active());
}

#[test]
fn stop_round_trip_keeps_remaining_time() {
    let mut timer = fresh_timer(3);
    timer.set_interval(2000, 500).unwrap();
    assert_eq!(timer.stop(), Err(TimerError::NotArmed));
    timer.start().unwrap();
    timer.finish_start(Ok(itimerspec::zero())).unwrap();
    let disarm = timer.stop().unwrap();
    assert!(disarm.is_disarmed());
    assert!(disarm == itimerspec::zero());
    let remaining = itimerspec { it_interval: ts(0, 500_000_000), it_value: ts(1, 250_000_000) };
    assert_eq!(timer.finish_stop(Ok(remaining)), Ok(remaining));
    assert!(!timer.is_active());
    assert!(timer.current() == remaining);
    assert_ne!(timer.current().it_value.compare(&ts(2, 0)), Ok(Ordering::Greater));
    assert_eq!(timer.start(), Ok(remaining));
}

#[test]
fn failed_disarm_keeps_timer_armed() {
    let mut timer = armed_timer(1000, 0);
    timer.stop().unwrap();
    assert_eq!(timer.finish_stop(Err(9)), Err(TimerError::ArmFailed(9)));
    assert!(timer.is_active());
}

#[test]
fn drain_accepts_full_counter_and_would_block() {
    assert_eq!(finish_dispatch(true, Ok(8)), Ok(true));
    assert_eq!(finish_dispatch(false, Ok(8)), Ok(false));
    assert_eq!(finish_dispatch(true, Err(11)), Ok(true));
    assert_eq!(finish_dispatch(false, Err(11)), Ok(false));
}

#[test]
fn drain_flags_protocol_violations() {
    assert_eq!(finish_dispatch(true, Ok(0)), Err(TimerError::DrainProtocolViolation));
    assert_eq!(finish_dispatch(true, Ok(4)), Err(TimerError::DrainProtocolViolation));
    assert_eq!(finish_dispatch(false, Err(9)), Err(TimerError::DrainProtocolViolation));
    assert_eq!(finish_dispatch(true, Err(0)), Err(TimerError::DrainProtocolViolation));
}

#[test]
fn periodic_source_survives_three_dispatches() {
    let calls = Arc::new(AtomicUsize::new(0));
    let timer = armed_timer(1000, 250);
    assert_eq!(timer.current().it_interval, ts(0, 250_000_000));
    let source = TimerGSource::new(timer, Counting { calls: calls.clone(), keep: true });
    let mut registry = SourceRegistry::new();
    let token = registry.register(source);
    let reads = [Ok(8), Err(11), Ok(8)];
    for read in reads {
        let (cont, fd) = registry.begin_dispatch(token).unwrap();
        assert!(cont);
        assert_eq!(fd, 3);
        assert!(registry.end_dispatch(token, cont, read).unwrap().is_none());
        assert!(registry.is_live(token));
    }
    assert_eq!(calls.load(AtomicOrdering::SeqCst), 3);
    assert!(registry.get(token).unwrap().timer().is_active());
}

#[test]
fn declining_source_is_dispatched_once() {
    let calls = Arc::new(AtomicUsize::new(0));
    let source = TimerGSource::new(armed_timer(100, 100), Counting { calls: calls.clone(), keep: false });
    let mut registry = SourceRegistry::new();
    let token = registry.register(source);
    let (cont, _fd) = registry.begin_dispatch(token).unwrap();
    assert!(!cont);
    let removed = registry.end_dispatch(token, cont, Ok(8)).unwrap();
    assert!(removed.is_some());
    assert!(!registry.is_live(token));
    assert!(registry.begin_dispatch(token).is_none());
    assert!(registry.get(token).is_none());
    assert_eq!(calls.load(AtomicOrdering::SeqCst), 1);
}

#[test]
fn protocol_violation_keeps_source_registered() {
    let calls = Arc::new(AtomicUsize::new(0));
    let source = TimerGSource::new(fresh_timer(3), Counting { calls: calls.clone(), keep: false });
    let mut registry = SourceRegistry::new();
    let token = registry.register(source);
    let (cont, _fd) = registry.begin_dispatch(token).unwrap();
    assert_eq!(registry.end_dispatch(token, cont, Ok(2)).err(), Some(TimerError::DrainProtocolViolation));
    assert!(registry.is_live(token));
}

#[test]
fn callback_may_stop_its_timer() {
    let mut registry = SourceRegistry::new();
    let token = registry.register(TimerGSource::new(armed_timer(1000, 1000), Stopping));
    let (cont, _fd) = registry.begin_dispatch(token).unwrap();
    assert!(registry.end_dispatch(token, cont, Err(11)).unwrap().is_none());
    assert!(!registry.get(token).unwrap().timer().is_active());
}

#[test]
fn registry_tokens_are_distinct_and_checked() {
    let mut registry = SourceRegistry::new();
    let a = registry.register(TimerGSource::new(fresh_timer(3), Stopping));
    let b = registry.register(TimerGSource::new(fresh_timer(4), Stopping));
    assert_ne!(a, b);
    assert!(!registry.is_live(b + 1));
    assert!(registry.begin_dispatch(b + 1).is_none());
    assert_eq!(registry.unregister(a).unwrap().fd(), 3);
    assert!(registry.unregister(a).is_none());
    assert!(!registry.is_live(a));
    assert!(registry.is_live(b));
    assert_eq!(registry.get(b).unwrap().fd(), 4);
}

#[test]
fn mut_timer_reaches_the_owned_timer() {
    let mut source = TimerGSource::new(fresh_timer(3), Stopping);
    source.mut_timer().set_oneshot(200).unwrap();
    assert_eq!(source.timer().current().it_value, ts(0, 200_000_000));
    assert_eq!(source.mut_timer().start().unwrap().it_value, ts(0, 200_000_000));
}

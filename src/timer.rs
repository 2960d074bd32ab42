use crate::error::TimerError;
use crate::time::{itimerspec, timespec, timespec_of_ms};
use vstd::prelude::*;

verus! {

/// The setting that disarms a timer: everything zero.
pub open spec fn disarm_setting() -> itimerspec {
    itimerspec {
        it_interval: timespec { tv_sec: 0, tv_nsec: 0 },
        it_value: timespec { tv_sec: 0, tv_nsec: 0 },
    }
}

/// What an arm or disarm request amounts to, given the kernel's answer:
/// the previously installed setting, or the error number.
pub open spec fn arm_outcome(reply: Result<itimerspec, i32>) -> Result<itimerspec, TimerError> {
    match reply {
        Ok(previous) => Ok(previous),
        Err(errno) => Err(TimerError::ArmFailed(errno)),
    }
}

/// What a query amounts to, given the kernel's answer.
pub open spec fn query_outcome(reply: Result<itimerspec, i32>) -> Result<itimerspec, TimerError> {
    match reply {
        Ok(installed) => Ok(installed),
        Err(errno) => Err(TimerError::QueryFailed(errno)),
    }
}

/// The descriptor of one kernel timer, owned by exactly one `Timer`.
///
/// The kernel calls themselves (create, arm, query, close) are made by the
/// host; this type holds the descriptor and interprets the kernel's answers.
pub struct TimerFD {
    fd: i32,
}

impl TimerFD {
    pub closed spec fn spec_fd(&self) -> i32 {
        self.fd
    }

    /// Takes what the kernel's create call returned and, for a failure, the error number.
    pub fn new(created: i32, errno: i32) -> (r: Result<TimerFD, TimerError>)
        ensures
            match r {
                Ok(t) => created >= 0 && t.spec_fd() == created,
                Err(e) => created < 0 && e == TimerError::ResourceCreationFailed(errno),
            },
    {
        if created < 0 {
            Err(TimerError::ResourceCreationFailed(errno))
        } else {
            Ok(TimerFD { fd: created })
        }
    }

    pub fn fd(&self) -> (r: i32)
        ensures
            r == self.spec_fd(),
    {
        self.fd
    }

    /// Interprets the kernel's answer to an arm or disarm request.
    pub fn settime(reply: Result<itimerspec, i32>) -> (r: Result<itimerspec, TimerError>)
        ensures
            r == arm_outcome(reply),
    {
        match reply {
            Ok(previous) => Ok(previous),
            Err(errno) => Err(TimerError::ArmFailed(errno)),
        }
    }

    /// Interprets the kernel's answer to a query of the installed setting.
    pub fn gettime(reply: Result<itimerspec, i32>) -> (r: Result<itimerspec, TimerError>)
        ensures
            r == query_outcome(reply),
    {
        match reply {
            Ok(installed) => Ok(installed),
            Err(errno) => Err(TimerError::QueryFailed(errno)),
        }
    }
}

/// The state of a `Timer`: its descriptor, the configured (or, after a stop,
/// the remaining) setting, and whether it is armed.
pub struct TimerView {
    pub fd: i32,
    pub current: itimerspec,
    pub active: bool,
}

/// `configure(initial_ms, interval_ms)`: the next state and the result.
pub open spec fn configure_step(t: TimerView, initial_ms: i64, interval_ms: i64) -> (
    TimerView,
    Result<(), TimerError>,
) {
    if initial_ms <= 0 {
        (t, Err(TimerError::NonPositiveInitial))
    } else if t.active {
        (t, Err(TimerError::ReconfigureWhileArmed))
    } else {
        (
            TimerView {
                fd: t.fd,
                current: itimerspec {
                    it_interval: timespec_of_ms(interval_ms),
                    it_value: timespec_of_ms(initial_ms),
                },
                active: false,
            },
            Ok(()),
        )
    }
}

/// `start`: the setting to install, or why the timer may not be armed.
pub open spec fn start_step(t: TimerView) -> Result<itimerspec, TimerError> {
    if t.active {
        Err(TimerError::AlreadyArmed)
    } else if !t.current.valid() {
        Err(TimerError::InvalidTimeValue)
    } else {
        Ok(t.current)
    }
}

/// The kernel has answered the request that `start` made.
pub open spec fn finish_start_step(t: TimerView, reply: Result<itimerspec, i32>) -> (
    TimerView,
    Result<(), TimerError>,
) {
    match reply {
        Ok(_) => (TimerView { fd: t.fd, current: t.current, active: true }, Ok(())),
        Err(errno) => (t, Err(TimerError::ArmFailed(errno))),
    }
}

/// `stop`: the setting to install, or why the timer may not be disarmed.
pub open spec fn stop_step(t: TimerView) -> Result<itimerspec, TimerError> {
    if !t.active {
        Err(TimerError::NotArmed)
    } else {
        Ok(disarm_setting())
    }
}

/// The kernel has answered the request that `stop` made, with the setting
/// that was installed until then: it becomes the timer's current setting.
pub open spec fn finish_stop_step(t: TimerView, reply: Result<itimerspec, i32>) -> (
    TimerView,
    Result<itimerspec, TimerError>,
) {
    match reply {
        Ok(previous) => (TimerView { fd: t.fd, current: previous, active: false }, Ok(previous)),
        Err(errno) => (t, Err(TimerError::ArmFailed(errno))),
    }
}

/// A timer with two states, idle and armed, that rejects misuse.
///
/// Each kernel request is split in two: `start` / `stop` decide whether the
/// request may be made and what to install; once the kernel has answered,
/// `finish_start` / `finish_stop` take its answer and move the state.
pub struct Timer {
    timerfd: TimerFD,
    current: itimerspec,
    active: bool,
}

impl View for Timer {
    type V = TimerView;

    closed spec fn view(&self) -> TimerView {
        TimerView { fd: self.timerfd.spec_fd(), current: self.current, active: self.active }
    }
}

impl Timer {
    /// An idle timer on `timerfd` with an all-zero setting.
    pub fn new(timerfd: TimerFD) -> (r: Timer)
        ensures
            r@ == (TimerView { fd: timerfd.spec_fd(), current: disarm_setting(), active: false }),
    {
        Timer { timerfd, current: itimerspec::zero(), active: false }
    }

    /// Sets the first expiration after `initial_ms` milliseconds and the period
    /// to `interval_ms` milliseconds (zero: one-shot). Only an idle timer may be
    /// configured, and `initial_ms` must be positive.
    pub fn set_interval(&mut self, initial_ms: i64, interval_ms: i64) -> (r: Result<(), TimerError>)
        ensures
            (final(self)@, r) == configure_step(old(self)@, initial_ms, interval_ms),
    {
        if initial_ms <= 0 {
            return Err(TimerError::NonPositiveInitial);
        }
        if self.active {
            return Err(TimerError::ReconfigureWhileArmed);
        }
        self.current = itimerspec {
            it_interval: timespec::from_milliseconds(interval_ms),
            it_value: timespec::from_milliseconds(initial_ms),
        };
        Ok(())
    }

    /// The same as `set_interval(timeout_ms, 0)`.
    pub fn set_oneshot(&mut self, timeout_ms: i64) -> (r: Result<(), TimerError>)
        ensures
            (final(self)@, r) == configure_step(old(self)@, timeout_ms, 0),
    {
        self.set_interval(timeout_ms, 0)
    }

    /// Decides a request to arm the timer: the setting to install, or the error.
    pub fn start(&self) -> (r: Result<itimerspec, TimerError>)
        ensures
            r == start_step(self@),
    {
        if self.active {
            return Err(TimerError::AlreadyArmed);
        }
        self.current.check_valid()?;
        Ok(self.current)
    }

    /// Takes the kernel's answer to the setting that `start` handed out.
    pub fn finish_start(&mut self, reply: Result<itimerspec, i32>) -> (r: Result<(), TimerError>)
        requires
            start_step(old(self)@) is Ok,
        ensures
            (final(self)@, r) == finish_start_step(old(self)@, reply),
    {
        match TimerFD::settime(reply) {
            Ok(_) => {
                self.active = true;
                Ok(())
            },
            Err(e) => Err(e),
        }
    }

    /// Decides a request to disarm the timer: the setting to install, or the error.
    pub fn stop(&self) -> (r: Result<itimerspec, TimerError>)
        ensures
            r == stop_step(self@),
    {
        if !self.active {
            return Err(TimerError::NotArmed);
        }
        Ok(itimerspec::zero())
    }

    /// Takes the kernel's answer to the disarm request that `stop` handed out:
    /// the setting installed until then, which becomes the current one and is returned.
    pub fn finish_stop(&mut self, reply: Result<itimerspec, i32>) -> (r: Result<itimerspec, TimerError>)
        requires
            old(self)@.active,
        ensures
            (final(self)@, r) == finish_stop_step(old(self)@, reply),
    {
        match TimerFD::settime(reply) {
            Ok(previous) => {
                self.current = previous;
                self.active = false;
                Ok(previous)
            },
            Err(e) => Err(e),
        }
    }

    pub fn is_active(&self) -> (r: bool)
        ensures
            r == self@.active,
    {
        self.active
    }

    pub fn current(&self) -> (r: itimerspec)
        ensures
            r == self@.current,
    {
        self.current
    }

    pub fn timerfd(&self) -> (r: &TimerFD)
        ensures
            r.spec_fd() == self@.fd,
    {
        &self.timerfd
    }
}

/// Misuse is rejected: once a start has been accepted by the kernel, a second
/// `start` fails with `AlreadyArmed` and `configure` with `ReconfigureWhileArmed`;
/// and a timer that may be started is idle, so `stop` on it fails with `NotArmed`.
pub proof fn lemma_misuse_rejected(t: TimerView, previous: itimerspec, initial_ms: i64, interval_ms: i64)
    requires
        start_step(t) is Ok,
        initial_ms > 0,
    ensures
        stop_step(t) == Err::<itimerspec, TimerError>(TimerError::NotArmed),
        start_step(finish_start_step(t, Ok(previous)).0) == Err::<itimerspec, TimerError>(
            TimerError::AlreadyArmed,
        ),
        configure_step(finish_start_step(t, Ok(previous)).0, initial_ms, interval_ms).1 == Err::<
            (),
            TimerError,
        >(TimerError::ReconfigureWhileArmed),
{
}

/// Stopping a configured but idle timer fails with `NotArmed`; starting it and
/// then stopping it succeeds, leaves it idle, and keeps as its current setting
/// the time that the kernel reported as remaining when it was disarmed.
pub proof fn lemma_stop_round_trip(
    t: TimerView,
    initial_ms: i64,
    interval_ms: i64,
    previous: itimerspec,
    remaining: itimerspec,
)
    requires
        !t.active,
        initial_ms > 0,
        interval_ms >= 0,
    ensures
        ({
            let configured = configure_step(t, initial_ms, interval_ms).0;
            let armed = finish_start_step(configured, Ok(previous)).0;
            &&& stop_step(configured) == Err::<itimerspec, TimerError>(TimerError::NotArmed)
            &&& start_step(configured) == Ok::<itimerspec, TimerError>(configured.current)
            &&& armed.active
            &&& stop_step(armed) == Ok::<itimerspec, TimerError>(disarm_setting())
            &&& finish_stop_step(armed, Ok(remaining)) == (
                TimerView { fd: t.fd, current: remaining, active: false },
                Ok::<itimerspec, TimerError>(remaining),
            )
        }),
{
    let i = timespec_of_ms(initial_ms);
    let v = timespec_of_ms(interval_ms);
    assert(i.valid() && v.valid()) by (nonlinear_arith)
        requires
            initial_ms > 0,
            interval_ms >= 0,
            i == timespec_of_ms(initial_ms),
            v == timespec_of_ms(interval_ms),
    ;
}

} // verus!

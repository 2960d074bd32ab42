use crate::error::TimerError;
use std::cmp::Ordering;
use vstd::prelude::*;

verus! {

/// The largest nanosecond count that a valid time value may hold.
pub const MAX_NANOS: i64 = 999_999_999;

/// A span of time as whole seconds and nanoseconds, laid out as the kernel's `timespec`.
///
/// Only values whose nanoseconds lie in `0..=MAX_NANOS` are valid; every
/// operation that compares or installs a value checks that first.
#[derive(Clone, Copy, Debug, PartialEq, Eq, Structural)]
pub struct timespec {
    pub tv_sec: i64,
    pub tv_nsec: i64,
}

/// The time span of `ms` milliseconds, split as Rust's truncating `/` and `%` split it:
/// seconds and remainder both carry the sign of `ms`.
pub open spec fn timespec_of_ms(ms: i64) -> timespec {
    if ms >= 0 {
        timespec { tv_sec: (ms / 1000) as i64, tv_nsec: ((ms % 1000) * 1_000_000) as i64 }
    } else {
        let a = -(ms as int);
        timespec { tv_sec: (-(a / 1000)) as i64, tv_nsec: (-((a % 1000) * 1_000_000)) as i64 }
    }
}

impl timespec {
    pub open spec fn valid(self) -> bool {
        0 <= self.tv_nsec <= MAX_NANOS
    }

    /// The span as a single count of nanoseconds.
    pub open spec fn total_nanos(self) -> int {
        self.tv_sec * 1_000_000_000 + self.tv_nsec
    }

    /// Seconds first, then nanoseconds.
    pub open spec fn spec_cmp(self, other: timespec) -> Ordering {
        if self.tv_sec < other.tv_sec {
            Ordering::Less
        } else if self.tv_sec > other.tv_sec {
            Ordering::Greater
        } else if self.tv_nsec < other.tv_nsec {
            Ordering::Less
        } else if self.tv_nsec > other.tv_nsec {
            Ordering::Greater
        } else {
            Ordering::Equal
        }
    }

    pub open spec fn is_zero(self) -> bool {
        self.tv_sec == 0 && self.tv_nsec == 0
    }

    /// The empty span.
    pub fn zero() -> (r: timespec)
        ensures
            r.is_zero(),
    {
        timespec { tv_sec: 0, tv_nsec: 0 }
    }

    /// Converts a millisecond count; a non-negative count gives a valid value.
    pub fn from_milliseconds(ms: i64) -> (r: timespec)
        ensures
            r == timespec_of_ms(ms),
            r.total_nanos() == ms * 1_000_000,
            ms >= 0 ==> r.valid(),
    {
        let m: i128 = ms as i128;
        let a: i128 = if m >= 0 { m } else { -m };
        let q: i128 = a / 1000;
        let rem: i128 = a % 1000;
        assert(0 <= q <= a && 0 <= rem < 1000);
        assert(q == (if ms >= 0 { ms as int } else { -(ms as int) }) / 1000);
        assert(rem == (if ms >= 0 { ms as int } else { -(ms as int) }) % 1000);
        let r = if m >= 0 {
            timespec { tv_sec: q as i64, tv_nsec: (rem * 1_000_000) as i64 }
        } else {
            timespec { tv_sec: (-q) as i64, tv_nsec: (-(rem * 1_000_000)) as i64 }
        };
        assert(q * 1000 + rem == a);
        assert(r.total_nanos() == ms * 1_000_000) by (nonlinear_arith)
            requires
                q * 1000 + rem == a,
                a == (if ms >= 0 { ms as int } else { -(ms as int) }),
                ms >= 0 ==> r.tv_sec == q && r.tv_nsec == rem * 1_000_000,
                ms < 0 ==> r.tv_sec == -q && r.tv_nsec == -(rem * 1_000_000),
        ;
        r
    }

    pub fn is_valid(&self) -> (r: bool)
        ensures
            r == self.valid(),
    {
        0 <= self.tv_nsec && self.tv_nsec <= MAX_NANOS
    }

    /// `Ok` exactly when the value is valid.
    pub fn check_valid(&self) -> (r: Result<(), TimerError>)
        ensures
            r == (if self.valid() { Ok::<(), TimerError>(()) } else { Err(TimerError::InvalidTimeValue) }),
    {
        if self.is_valid() {
            Ok(())
        } else {
            Err(TimerError::InvalidTimeValue)
        }
    }

    /// Orders two valid values, seconds first; an invalid operand is an error.
    pub fn compare(&self, other: &timespec) -> (r: Result<Ordering, TimerError>)
        ensures
            r == (if self.valid() && other.valid() {
                Ok::<Ordering, TimerError>(self.spec_cmp(*other))
            } else {
                Err(TimerError::InvalidTimeValue)
            }),
    {
        self.check_valid()?;
        other.check_valid()?;
        if self.tv_sec < other.tv_sec {
            Ok(Ordering::Less)
        } else if self.tv_sec > other.tv_sec {
            Ok(Ordering::Greater)
        } else if self.tv_nsec < other.tv_nsec {
            Ok(Ordering::Less)
        } else if self.tv_nsec > other.tv_nsec {
            Ok(Ordering::Greater)
        } else {
            Ok(Ordering::Equal)
        }
    }
}

/// On valid values the order of `compare` is a strict total order: it is `Equal`
/// exactly on equal values, reversing the operands reverses it, `Less` is
/// transitive, and it agrees with the order of the total nanosecond counts.
pub proof fn lemma_compare_total_order(a: timespec, b: timespec, c: timespec)
    requires
        a.valid(),
        b.valid(),
        c.valid(),
    ensures
        a.spec_cmp(b) == Ordering::Equal <==> a == b,
        a.spec_cmp(b) == Ordering::Less <==> b.spec_cmp(a) == Ordering::Greater,
        a.spec_cmp(b) == Ordering::Less && b.spec_cmp(c) == Ordering::Less ==> a.spec_cmp(c)
            == Ordering::Less,
        a.spec_cmp(b) == Ordering::Less <==> a.total_nanos() < b.total_nanos(),
        a.spec_cmp(b) == Ordering::Equal <==> a.total_nanos() == b.total_nanos(),
{
    assert(a.tv_sec < b.tv_sec ==> a.total_nanos() < b.total_nanos()) by (nonlinear_arith)
        requires
            a.valid(),
            b.valid(),
    ;
    assert(a.tv_sec > b.tv_sec ==> a.total_nanos() > b.total_nanos()) by (nonlinear_arith)
        requires
            a.valid(),
            b.valid(),
    ;
}

/// A timer setting as the kernel takes it: the delay until the first expiration
/// (`it_value`) and the period after it (`it_interval`, zero for a one-shot timer).
/// An all-zero `it_value` means "disarmed".
#[derive(Clone, Copy, Debug, PartialEq, Eq, Structural)]
pub struct itimerspec {
    pub it_interval: timespec,
    pub it_value: timespec,
}

impl itimerspec {
    pub open spec fn valid(self) -> bool {
        self.it_interval.valid() && self.it_value.valid()
    }

    pub open spec fn disarmed(self) -> bool {
        self.it_value.is_zero()
    }

    pub open spec fn is_zero(self) -> bool {
        self.it_value.is_zero() && self.it_interval.is_zero()
    }

    /// The all-zero setting, which disarms a timer.
    pub fn zero() -> (r: itimerspec)
        ensures
            r.is_zero(),
    {
        itimerspec { it_interval: timespec::zero(), it_value: timespec::zero() }
    }

    pub fn is_disarmed(&self) -> (r: bool)
        ensures
            r == self.disarmed(),
    {
        self.it_value.tv_sec == 0 && self.it_value.tv_nsec == 0
    }

    /// `Ok` exactly when both halves are valid.
    pub fn check_valid(&self) -> (r: Result<(), TimerError>)
        ensures
            r == (if self.valid() { Ok::<(), TimerError>(()) } else { Err(TimerError::InvalidTimeValue) }),
    {
        self.it_value.check_valid()?;
        self.it_interval.check_valid()
    }
}

} // verus!

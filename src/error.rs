use vstd::prelude::*;

verus! {

/// Everything that can go wrong with a timer or its event source.
///
/// The variants that carry an `i32` hold the operating system's error number.
#[derive(Clone, Copy, Debug, PartialEq, Eq, Structural)]
pub enum TimerError {
    /// A time value whose nanoseconds lie outside `0..=999_999_999`.
    InvalidTimeValue,
    /// The kernel could not allocate the timer resource.
    ResourceCreationFailed(i32),
    /// The kernel rejected a request to arm or disarm the timer.
    ArmFailed(i32),
    /// The kernel could not report the installed timer setting.
    QueryFailed(i32),
    /// A configuration whose first expiration is not strictly positive.
    NonPositiveInitial,
    /// `configure` on a timer that is armed.
    ReconfigureWhileArmed,
    /// `start` on a timer that is armed.
    AlreadyArmed,
    /// `stop` on a timer that is idle.
    NotArmed,
    /// The read that drains the expiration counter neither got the whole counter
    /// nor found the descriptor already drained.
    DrainProtocolViolation,
}

} // verus!

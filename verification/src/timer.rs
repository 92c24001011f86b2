//! The schedule of the interval timer that paces the probes.
//!
//! The operating system takes a timer setting as whole seconds and
//! microseconds, and reads a setting of zero as "disarm". An interval given in
//! nanoseconds is therefore rounded up to the next microsecond: a positive
//! interval always arms the timer.

use vstd::prelude::*;

verus! {

/// Nanoseconds in a microsecond.
pub const NANOS_PER_MICRO: u64 = 1_000;

/// Microseconds in a second.
pub const MICROS_PER_SECOND: u64 = 1_000_000;

/// A span of time as the timer takes it.
#[derive(Clone, Copy, Debug, PartialEq, Eq, Structural)]
pub struct TimerValue {
    pub seconds: u64,
    pub microseconds: u32,
}

/// A periodic timer: the time to its first expiry, and the time between
/// expiries after that.
#[derive(Clone, Copy, Debug, PartialEq, Eq, Structural)]
pub struct TimerSchedule {
    pub initial: TimerValue,
    pub period: TimerValue,
}

impl TimerValue {
    /// The span in microseconds.
    pub open spec fn micros(self) -> nat {
        (self.seconds * MICROS_PER_SECOND + self.microseconds) as nat
    }

    /// The span of `micros` microseconds, split into seconds and the
    /// microseconds left over.
    pub open spec fn of_micros(micros: nat) -> TimerValue {
        TimerValue {
            seconds: (micros / MICROS_PER_SECOND as nat) as u64,
            microseconds: (micros % MICROS_PER_SECOND as nat) as u32,
        }
    }
}

/// The microseconds that cover `interval` nanoseconds.
pub open spec fn covering_micros(interval: u64) -> nat {
    ((interval + NANOS_PER_MICRO - 1) / (NANOS_PER_MICRO as int)) as nat
}

impl TimerSchedule {
    /// The schedule of a timer that first expires after `interval`
    /// nanoseconds and then every `interval` nanoseconds.
    pub open spec fn every(interval: u64) -> TimerSchedule {
        let value = TimerValue::of_micros(covering_micros(interval));
        TimerSchedule { initial: value, period: value }
    }

    /// Computes the schedule of a timer that first expires after `interval`
    /// nanoseconds and then every `interval` nanoseconds.
    pub fn periodic(interval: u64) -> (schedule: TimerSchedule)
        ensures
            schedule == TimerSchedule::every(interval),
    {
        let micros: u64 = interval / NANOS_PER_MICRO + if interval % NANOS_PER_MICRO == 0 {
            0
        } else {
            1
        };
        let value = TimerValue {
            seconds: micros / MICROS_PER_SECOND,
            microseconds: (micros % MICROS_PER_SECOND) as u32,
        };
        TimerSchedule { initial: value, period: value }
    }
}

/// The schedule of an interval spans the interval, rounded up to whole
/// microseconds, from the start to the first expiry and from each expiry to
/// the next; and only the interval of zero gives the schedule of zero, which
/// would disarm the timer.
pub proof fn law_schedule_covers_interval(interval: u64)
    ensures
        TimerSchedule::every(interval).initial == TimerSchedule::every(interval).period,
        TimerSchedule::every(interval).period.micros() == covering_micros(interval),
        TimerSchedule::every(interval).period.microseconds < MICROS_PER_SECOND,
        TimerSchedule::every(interval).period.micros() * NANOS_PER_MICRO >= interval,
        TimerSchedule::every(interval).period.micros() * NANOS_PER_MICRO < interval
            + NANOS_PER_MICRO,
        interval > 0 <==> TimerSchedule::every(interval).period.micros() > 0,
{
}

} // verus!

//! The two flags through which the timer and the stop signal reach the loop.
//!
//! A handler that runs in interrupt context may only set a flag; the loop
//! reads them. Each flag is one atomic boolean with a single writer and a
//! single reader, so relaxed ordering is enough, and no method blocks or
//! allocates. What a read returns depends on what has happened outside the
//! program: nothing is promised of it beyond its type, and the engine is
//! verified for either value.

use crate::engine::Event;
use std::sync::atomic::AtomicBool;
use std::sync::atomic::Ordering;
use vstd::prelude::*;

verus! {

/// The flags of one session.
pub struct SignalFlags {
    timer_fired: AtomicBool,
    stop_requested: AtomicBool,
}

impl SignalFlags {
    /// Two flags, both down.
    pub fn new() -> Self {
        SignalFlags { timer_fired: AtomicBool::new(false), stop_requested: AtomicBool::new(false) }
    }

    /// Notes that the interval timer has expired. For the timer's handler.
    pub fn mark_timer_fired(&self) {
        self.timer_fired.store(true, Ordering::Relaxed);
    }

    /// Notes that the user wants the session to end. For the handler of the
    /// interrupt signal. A stop request is never taken back.
    pub fn mark_stop_requested(&self) {
        self.stop_requested.store(true, Ordering::Relaxed);
    }

    /// Reads the timer flag and lowers it, in one atomic exchange.
    pub fn take_timer_fired(&self) -> bool {
        self.timer_fired.swap(false, Ordering::Relaxed)
    }

    /// Reads the stop flag and leaves it as it is.
    pub fn is_stop_requested(&self) -> bool {
        self.stop_requested.load(Ordering::Relaxed)
    }

    /// The answer to a request to poll: the stop flag as it stands, with the
    /// clock reading `elapsed`.
    pub fn polled(&self, elapsed: u64) -> (event: Event)
        ensures
            event matches Event::Polled { elapsed: reading, .. } && reading == elapsed,
    {
        Event::Polled { stop_requested: self.is_stop_requested(), elapsed }
    }

    /// The answer to a request to take the timer: the timer flag, lowered by
    /// this call.
    pub fn timer(&self) -> (event: Event)
        ensures
            event is Timer,
    {
        Event::Timer { fired: self.take_timer_fired() }
    }
}

} // verus!

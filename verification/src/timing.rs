//! Idle-time bookkeeping of one direction of the bridge.

use vstd::prelude::*;

verus! {

/// Silent timer periods after which a buffered run is forwarded.
pub const MAX_WAIT_TIMES: u8 = 3;

/// Time of one byte at 57600 bits per second, in microseconds.
pub const BYTE_TIME_57600: u64 = 70 * 2;

/// Time of one byte at 19200 bits per second, in microseconds.
pub const BYTE_TIME_19200: u64 = 416;

/// The counters of one direction as plain numbers: the timer periods that
/// ended since the buffered count last changed, and that count.
pub struct Idle {
    pub wait: nat,
    pub last_size: nat,
}

/// What one look at a direction's buffer asks of its idle timer.
#[derive(Clone, Copy, Debug, PartialEq, Eq, Structural)]
pub enum IdleStep {
    /// Nothing: the buffer is empty, or no period has ended.
    Wait,
    /// The buffered count changed: start the timer afresh.
    Restart,
    /// One more silent period was counted: let the timer run again.
    Rearm,
    /// The silence is long enough: stop the timer and forward the run.
    Flush,
}

/// The number of silent periods that a threshold asks for: a threshold of
/// zero is met by the first one, as a threshold of one is.
pub open spec fn periods_needed(threshold: nat) -> nat {
    if threshold == 0 {
        1
    } else {
        threshold
    }
}

/// The counters after one look at a buffer that holds `size` bytes.
pub open spec fn idle_after(s: Idle, threshold: nat, size: nat, expired: bool) -> Idle {
    if size == 0 {
        s
    } else if size != s.last_size {
        Idle { wait: 0, last_size: size }
    } else if expired {
        if s.wait + 1 >= threshold {
            Idle { wait: 0, last_size: 0 }
        } else {
            Idle { wait: s.wait + 1, last_size: s.last_size }
        }
    } else {
        s
    }
}

/// What one look at a buffer that holds `size` bytes asks for.
pub open spec fn idle_step(s: Idle, threshold: nat, size: nat, expired: bool) -> IdleStep {
    if size == 0 {
        IdleStep::Wait
    } else if size != s.last_size {
        IdleStep::Restart
    } else if expired {
        if s.wait + 1 >= threshold {
            IdleStep::Flush
        } else {
            IdleStep::Rearm
        }
    } else {
        IdleStep::Wait
    }
}

/// The idle counters of one direction, with the threshold they count to.
pub struct TimingCounters {
    wait: u8,
    last_size: usize,
    threshold: u8,
}

impl TimingCounters {
    #[verifier::type_invariant]
    spec fn below_threshold(self) -> bool {
        self.wait == 0 || self.wait < self.threshold
    }

    /// The counters as plain numbers.
    pub closed spec fn view(&self) -> Idle {
        Idle { wait: self.wait as nat, last_size: self.last_size as nat }
    }

    /// The number of silent periods counted to.
    pub closed spec fn threshold(&self) -> nat {
        self.threshold as nat
    }

    /// Counters at rest that forward after `threshold` silent periods.
    pub fn new(threshold: u8) -> (c: TimingCounters)
        ensures
            c@ == (Idle { wait: 0, last_size: 0 }),
            c.threshold() == threshold,
    {
        TimingCounters { wait: 0, last_size: 0, threshold }
    }

    /// The silent periods counted so far.
    pub fn wait(&self) -> (w: u8)
        ensures
            w == self@.wait,
            w < periods_needed(self.threshold()),
    {
        proof {
            use_type_invariant(self);
        }
        self.wait
    }

    /// The buffered count last seen.
    pub fn last_size(&self) -> (n: usize)
        ensures
            n == self@.last_size,
    {
        self.last_size
    }

    /// Takes one look at a buffer that now holds `current_size` bytes, with
    /// `expired` telling whether a timer period has ended since the last
    /// look, and says what to do with the timer.
    pub fn observe(&mut self, current_size: usize, expired: bool) -> (step: IdleStep)
        ensures
            final(self).threshold() == old(self).threshold(),
            final(self)@ == idle_after(
                old(self)@,
                old(self).threshold(),
                current_size as nat,
                expired,
            ),
            step == idle_step(old(self)@, old(self).threshold(), current_size as nat, expired),
    {
        proof {
            use_type_invariant(&*self);
        }
        if current_size == 0 {
            IdleStep::Wait
        } else if current_size != self.last_size {
            *self = TimingCounters { wait: 0, last_size: current_size, threshold: self.threshold };
            IdleStep::Restart
        } else if expired {
            if self.wait + 1 >= self.threshold {
                *self = TimingCounters { wait: 0, last_size: 0, threshold: self.threshold };
                IdleStep::Flush
            } else {
                self.wait = self.wait + 1;
                IdleStep::Rearm
            }
        } else {
            IdleStep::Wait
        }
    }
}

} // verus!

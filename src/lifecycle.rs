//! The server's lifecycle: which requests it still takes, and when it has
//! drained after the shutdown signal.
use vstd::prelude::*;

verus! {

/// The phases of the server.
#[derive(Debug, Clone, Copy, PartialEq, Eq, Structural)]
pub enum Phase {
    /// The listener is not bound yet.
    Starting,
    /// Requests are taken and handled.
    Serving,
    /// The shutdown signal came: no new work is taken, in-flight work finishes.
    Draining,
    /// Nothing is in flight and nothing more is taken.
    Stopped,
}

/// The phase of the server and the number of handlers in flight.
#[derive(Debug, Clone, Copy, PartialEq, Eq, Structural)]
pub struct Lifecycle {
    pub phase: Phase,
    pub in_flight: usize,
}

impl Lifecycle {
    /// Only a serving or draining server has handlers in flight.
    pub open spec fn wf(self) -> bool {
        (self.phase == Phase::Starting || self.phase == Phase::Stopped) ==> self.in_flight == 0
    }

    /// Whether a new handler is taken in this state.
    pub open spec fn takes_work(self) -> bool {
        self.phase == Phase::Serving && self.in_flight < usize::MAX
    }

    /// The state after the listener was bound.
    pub open spec fn bound_spec(self) -> Lifecycle {
        if self.phase == Phase::Starting {
            Lifecycle { phase: Phase::Serving, ..self }
        } else {
            self
        }
    }

    /// The state after a new handler was offered.
    pub open spec fn begin_spec(self) -> Lifecycle {
        if self.takes_work() {
            Lifecycle { in_flight: (self.in_flight + 1) as usize, ..self }
        } else {
            self
        }
    }

    /// The state after an in-flight handler completed.
    pub open spec fn finish_spec(self) -> Lifecycle {
        let left = (self.in_flight - 1) as usize;
        if self.phase == Phase::Draining && left == 0 {
            Lifecycle { phase: Phase::Stopped, in_flight: 0 }
        } else {
            Lifecycle { in_flight: left, ..self }
        }
    }

    /// The state after the shutdown signal.
    pub open spec fn signal_spec(self) -> Lifecycle {
        if self.phase == Phase::Starting || (self.phase == Phase::Serving && self.in_flight == 0) {
            Lifecycle { phase: Phase::Stopped, ..self }
        } else if self.phase == Phase::Serving {
            Lifecycle { phase: Phase::Draining, ..self }
        } else {
            self
        }
    }

    /// The state after `k` in-flight handlers completed one by one.
    pub open spec fn finish_many(self, k: nat) -> Lifecycle
        decreases k,
    {
        if k == 0 {
            self
        } else {
            self.finish_many((k - 1) as nat).finish_spec()
        }
    }

    /// A server that has not bound its listener yet.
    pub fn new() -> (r: Lifecycle)
        ensures
            r.phase == Phase::Starting,
            r.in_flight == 0,
            r.wf(),
    {
        Lifecycle { phase: Phase::Starting, in_flight: 0 }
    }

    /// The listener is bound: a starting server begins serving.
    pub fn bound(&mut self)
        requires
            old(self).wf(),
        ensures
            *final(self) == old(self).bound_spec(),
            final(self).wf(),
    {
        if self.phase == Phase::Starting {
            self.phase = Phase::Serving;
        }
    }

    /// Offers a new handler; it is taken, and counted in flight, only while
    /// the server is serving and the count of handlers in flight can grow.
    pub fn begin(&mut self) -> (taken: bool)
        requires
            old(self).wf(),
        ensures
            taken == old(self).takes_work(),
            *final(self) == old(self).begin_spec(),
            final(self).wf(),
    {
        if self.phase == Phase::Serving && self.in_flight < usize::MAX {
            self.in_flight = self.in_flight + 1;
            true
        } else {
            false
        }
    }

    /// An in-flight handler completed; a draining server stops once the
    /// last one has.
    pub fn finish(&mut self)
        requires
            old(self).wf(),
            old(self).in_flight > 0,
        ensures
            *final(self) == old(self).finish_spec(),
            final(self).wf(),
    {
        self.in_flight = self.in_flight - 1;
        if self.phase == Phase::Draining && self.in_flight == 0 {
            self.phase = Phase::Stopped;
        }
    }

    /// The shutdown signal came: a serving server drains, or stops at once
    /// when nothing is in flight.
    pub fn signal(&mut self)
        requires
            old(self).wf(),
        ensures
            *final(self) == old(self).signal_spec(),
            final(self).wf(),
    {
        if self.phase == Phase::Starting || (self.phase == Phase::Serving && self.in_flight == 0) {
            self.phase = Phase::Stopped;
        } else if self.phase == Phase::Serving {
            self.phase = Phase::Draining;
        }
    }

    /// Whether the server has stopped.
    pub fn is_stopped(&self) -> (r: bool)
        ensures
            r == (self.phase == Phase::Stopped),
    {
        self.phase == Phase::Stopped
    }
}

/// After the shutdown signal reaches a server with `m` handlers in flight,
/// no new handler is taken, the server keeps draining until each of the `m`
/// has completed, and it stops once the last has.
pub proof fn lemma_graceful_drain(s: Lifecycle, k: nat)
    requires
        s.wf(),
        s.phase == Phase::Serving,
        k <= s.in_flight,
    ensures
        !s.signal_spec().finish_many(k).takes_work(),
        k < s.in_flight ==> s.signal_spec().finish_many(k) == (Lifecycle {
            phase: Phase::Draining,
            in_flight: (s.in_flight - k) as usize,
        }),
        k == s.in_flight ==> s.signal_spec().finish_many(k) == (Lifecycle {
            phase: Phase::Stopped,
            in_flight: 0,
        }),
    decreases k,
{
    if k > 0 {
        lemma_graceful_drain(s, (k - 1) as nat);
    }
}

} // verus!

//! Decisions of the scan/act daemon loop: scan, act on each target of the
//! tick, sleep out the interval one second at a time, and stop when asked
//! to, but never in the middle of the acting phase.
use vstd::prelude::*;

verus! {

/// Where the loop stands.
#[derive(Debug, Clone, Copy, PartialEq, Eq, Structural)]
pub enum DaemonPhase {
    /// A new tick is due: the next step scans the process table.
    Idle,
    /// Target `next` of the `total` targets of this tick is to be acted on.
    Acting { next: usize, total: usize },
    /// `remaining` seconds of the interval are left to sleep.
    Sleeping { remaining: i64 },
}

/// What the driver of the loop must do next.
#[derive(Debug, Clone, Copy, PartialEq, Eq, Structural)]
pub enum DaemonAction {
    /// Take a snapshot of the process table and select its targets.
    Scan,
    /// Run the termination of target `index` of this tick to its outcome.
    Act { index: usize },
    /// Sleep one second.
    Sleep,
    /// Leave the loop.
    Stop,
}

/// What came of the last action.
#[derive(Debug, Clone, Copy, PartialEq, Eq, Structural)]
pub enum DaemonEvent {
    /// The snapshot was taken and `targets` processes were selected.
    Scanned { targets: usize },
    /// No snapshot could be taken: the tick is skipped.
    ScanFailed,
    /// The termination of the current target reached its outcome.
    Acted,
    /// One second has passed.
    Slept,
}

/// The loop's state: the interval between ticks, the phase, and whether
/// shutdown has been asked for.
#[derive(Debug, Clone, Copy, PartialEq, Eq, Structural)]
pub struct Daemon {
    pub check_interval_secs: i64,
    pub phase: DaemonPhase,
    pub cancel_requested: bool,
}

/// Well-formed loop: a positive interval, an acting index within the
/// tick's targets, and a sleep that lasts at most one interval.
pub open spec fn daemon_wf(d: Daemon) -> bool {
    &&& d.check_interval_secs > 0
    &&& match d.phase {
        DaemonPhase::Idle => true,
        DaemonPhase::Acting { next, total } => next < total,
        DaemonPhase::Sleeping { remaining } => 1 <= remaining <= d.check_interval_secs,
    }
}

/// The action that `d` calls for. Shutdown is honoured when idle and while
/// sleeping; the acting phase runs to its end first.
pub open spec fn daemon_action(d: Daemon) -> DaemonAction {
    match d.phase {
        DaemonPhase::Idle => if d.cancel_requested {
            DaemonAction::Stop
        } else {
            DaemonAction::Scan
        },
        DaemonPhase::Acting { next, .. } => DaemonAction::Act { index: next },
        DaemonPhase::Sleeping { .. } => if d.cancel_requested {
            DaemonAction::Stop
        } else {
            DaemonAction::Sleep
        },
    }
}

/// The phase after event `e`. An event that does not answer the phase's
/// action leaves the phase as it is.
pub open spec fn daemon_next(d: Daemon, e: DaemonEvent) -> DaemonPhase {
    let sleep = DaemonPhase::Sleeping { remaining: d.check_interval_secs };
    match d.phase {
        DaemonPhase::Idle => match e {
            DaemonEvent::Scanned { targets } => if targets > 0 {
                DaemonPhase::Acting { next: 0, total: targets }
            } else {
                sleep
            },
            DaemonEvent::ScanFailed => sleep,
            _ => d.phase,
        },
        DaemonPhase::Acting { next, total } => match e {
            DaemonEvent::Acted => if next + 1 < total {
                DaemonPhase::Acting { next: (next + 1) as usize, total }
            } else {
                sleep
            },
            _ => d.phase,
        },
        DaemonPhase::Sleeping { remaining } => match e {
            DaemonEvent::Slept => if remaining > 1 {
                DaemonPhase::Sleeping { remaining: (remaining - 1) as i64 }
            } else {
                DaemonPhase::Idle
            },
            _ => d.phase,
        },
    }
}

/// The number of targets still to be acted on before shutdown can be
/// honoured.
pub open spec fn acts_before_stop(d: Daemon) -> nat {
    match d.phase {
        DaemonPhase::Acting { next, total } => (total - next) as nat,
        _ => 0,
    }
}

impl Daemon {
    /// A loop that starts with a tick, waiting `check_interval_secs` seconds
    /// between ticks.
    pub fn new(check_interval_secs: i64) -> (r: Daemon)
        requires
            check_interval_secs > 0,
        ensures
            r.check_interval_secs == check_interval_secs,
            r.phase == DaemonPhase::Idle,
            !r.cancel_requested,
            daemon_wf(r),
    {
        Daemon { check_interval_secs, phase: DaemonPhase::Idle, cancel_requested: false }
    }

    /// Records that shutdown was asked for.
    pub fn request_cancel(&mut self)
        ensures
            final(self).check_interval_secs == old(self).check_interval_secs,
            final(self).phase == old(self).phase,
            final(self).cancel_requested,
    {
        self.cancel_requested = true;
    }

    /// What the driver must do now.
    pub fn next_action(&self) -> (r: DaemonAction)
        ensures
            r == daemon_action(*self),
    {
        match self.phase {
            DaemonPhase::Idle => if self.cancel_requested {
                DaemonAction::Stop
            } else {
                DaemonAction::Scan
            },
            DaemonPhase::Acting { next, .. } => DaemonAction::Act { index: next },
            DaemonPhase::Sleeping { .. } => if self.cancel_requested {
                DaemonAction::Stop
            } else {
                DaemonAction::Sleep
            },
        }
    }

    /// Takes what came of the last action.
    pub fn on_event(&mut self, e: DaemonEvent)
        requires
            daemon_wf(*old(self)),
        ensures
            final(self).check_interval_secs == old(self).check_interval_secs,
            final(self).cancel_requested == old(self).cancel_requested,
            final(self).phase == daemon_next(*old(self), e),
            daemon_wf(*final(self)),
    {
        let sleep = DaemonPhase::Sleeping { remaining: self.check_interval_secs };
        let next = match self.phase {
            DaemonPhase::Idle => match e {
                DaemonEvent::Scanned { targets } => if targets > 0 {
                    DaemonPhase::Acting { next: 0, total: targets }
                } else {
                    sleep
                },
                DaemonEvent::ScanFailed => sleep,
                _ => self.phase,
            },
            DaemonPhase::Acting { next, total } => match e {
                DaemonEvent::Acted => if next + 1 < total {
                    DaemonPhase::Acting { next: next + 1, total }
                } else {
                    sleep
                },
                _ => self.phase,
            },
            DaemonPhase::Sleeping { remaining } => match e {
                DaemonEvent::Slept => if remaining > 1 {
                    DaemonPhase::Sleeping { remaining: remaining - 1 }
                } else {
                    DaemonPhase::Idle
                },
                _ => self.phase,
            },
        };
        self.phase = next;
    }
}

/// Shutdown latency is bounded: once shutdown is asked for, the loop stops
/// at once unless it is acting, and each target acted on brings the stop
/// one step closer. A sleep never outlasts one second before shutdown is
/// looked at again.
pub proof fn lemma_cancel_is_prompt(d: Daemon, e: DaemonEvent)
    requires
        daemon_wf(d),
        d.cancel_requested,
    ensures
        !(d.phase is Acting) ==> daemon_action(d) == DaemonAction::Stop,
        d.phase is Acting && e == DaemonEvent::Acted ==> acts_before_stop(
            Daemon { phase: daemon_next(d, e), ..d },
        ) < acts_before_stop(d),
        d.phase is Acting && e == DaemonEvent::Acted && acts_before_stop(d) == 1
            ==> daemon_action(Daemon { phase: daemon_next(d, e), ..d }) == DaemonAction::Stop,
{
}

} // verus!

//! Which diagnostic events reach the log, and which of them force a flush.
//!
//! Formatting the lines and writing the file are done by the caller; this
//! module holds the logger's decisions: nothing is written while logging is
//! off, recognition cycles are thinned to every `log_interval`-th, and the
//! rarer events (hits, near misses, state changes, finished trainings) are
//! written and flushed at once.

use vstd::prelude::*;

verus! {

/// The kinds of diagnostic event.
#[derive(Debug, Clone, Copy, PartialEq, Eq, Structural)]
pub enum DiagnosticKind {
    /// Recognition cycle with all gesture distances
    Recognition,
    /// A hit was fired
    Hit,
    /// A near-miss (close to threshold but didn't fire)
    NearMiss,
    /// State machine transition
    StateChange,
    /// Training completed
    TrainingComplete,
}

/// What to do with one event.
#[derive(Debug, Clone, Copy, PartialEq, Eq, Structural)]
pub enum LogAction {
    /// Drop it
    Skip,
    /// Write its line
    Write,
    /// Write its line and flush the file
    WriteAndFlush,
}

/// Recognition cycles between two logged ones.
pub const LOG_INTERVAL: usize = 4;

/// The logger's bookkeeping: whether it is on, and how many recognition
/// cycles it has been shown.
#[derive(Debug)]
pub struct LogSchedule {
    enabled: bool,
    frame_count: usize,
    log_interval: usize,
}

/// Model of the schedule.
pub struct ScheduleModel {
    pub enabled: bool,
    pub frame_count: nat,
    pub log_interval: nat,
}

impl View for LogSchedule {
    type V = ScheduleModel;

    closed spec fn view(&self) -> ScheduleModel {
        ScheduleModel {
            enabled: self.enabled,
            frame_count: self.frame_count as nat,
            log_interval: self.log_interval as nat,
        }
    }
}

/// The action for an event of kind `kind` and the schedule after it.
pub open spec fn schedule_step(g: ScheduleModel, kind: DiagnosticKind) -> (LogAction, ScheduleModel) {
    if !g.enabled {
        (LogAction::Skip, g)
    } else if kind == DiagnosticKind::Recognition {
        let counted = ScheduleModel { frame_count: g.frame_count + 1, ..g };
        if counted.frame_count % g.log_interval == 0 {
            (LogAction::Write, counted)
        } else {
            (LogAction::Skip, counted)
        }
    } else {
        (LogAction::WriteAndFlush, g)
    }
}

impl LogSchedule {
    /// Recognition cycles are thinned by a positive interval.
    #[verifier::type_invariant]
    spec fn interval_is_positive(&self) -> bool {
        self.log_interval > 0
    }

    /// Off, no cycle seen, every fourth cycle logged.
    pub fn new() -> (g: Self)
        ensures
            g@ == (ScheduleModel { enabled: false, frame_count: 0, log_interval: LOG_INTERVAL as nat }),
    {
        LogSchedule { enabled: false, frame_count: 0, log_interval: LOG_INTERVAL }
    }

    /// Start logging (the cycle count carries on).
    pub fn enable(&mut self)
        ensures
            final(self)@ == (ScheduleModel { enabled: true, ..old(self)@ }),
    {
        proof {
            use_type_invariant(&*self);
        }
        self.enabled = true;
    }

    /// Stop logging.
    pub fn disable(&mut self)
        ensures
            final(self)@ == (ScheduleModel { enabled: false, ..old(self)@ }),
    {
        proof {
            use_type_invariant(&*self);
        }
        self.enabled = false;
    }

    /// Whether logging is on.
    pub fn is_enabled(&self) -> (r: bool)
        ensures
            r == self@.enabled,
    {
        self.enabled
    }

    /// Recognition cycles seen while logging was on.
    pub fn cycles_seen(&self) -> (r: usize)
        ensures
            r == self@.frame_count,
    {
        self.frame_count
    }

    /// Decide what becomes of one event.
    pub fn decide(&mut self, kind: DiagnosticKind) -> (r: LogAction)
        requires
            old(self)@.enabled && kind == DiagnosticKind::Recognition ==> old(self)@.frame_count
                < usize::MAX,
        ensures
            old(self)@.log_interval > 0,
            (r, final(self)@) == schedule_step(old(self)@, kind),
    {
        proof {
            use_type_invariant(&*self);
        }
        if !self.enabled {
            return LogAction::Skip;
        }
        match kind {
            DiagnosticKind::Recognition => {
                self.frame_count = self.frame_count + 1;
                if self.frame_count % self.log_interval == 0 {
                    LogAction::Write
                } else {
                    LogAction::Skip
                }
            },
            _ => LogAction::WriteAndFlush,
        }
    }
}

proof fn lemma_one_multiple_in_window(c: nat, n: nat, j: nat)
    requires
        n > 0,
        j < n,
    ensures
        ((c + j + 1) % n == 0) == (j == (n - 1 - c % n) as nat),
{
    let r = c % n;
    let q = c / n;
    assert(c == n * q + r && 0 <= r < n) by {
        vstd::arithmetic::div_mod::lemma_fundamental_div_mod(c as int, n as int);
    }
    // c + j + 1 = n * q + (r + j + 1), with 1 <= r + j + 1 < 2n
    let t = r + j + 1;
    assert(c + j + 1 == n * q + t);
    vstd::arithmetic::div_mod::lemma_mod_multiples_vanish(q as int, t as int, n as int);
    assert((c + j + 1) % n == t % n);
    if t < n {
        vstd::arithmetic::div_mod::lemma_small_mod(t, n);
    } else {
        vstd::arithmetic::div_mod::lemma_mod_add_multiples_vanish((t - n) as int, n as int);
        vstd::arithmetic::div_mod::lemma_small_mod((t - n) as nat, n);
    }
}

/// Of every `log_interval` consecutive recognition cycles seen while logging
/// is on, exactly one is written; none is ever flushed.
pub proof fn one_cycle_in_each_interval_is_logged(g: ScheduleModel)
    requires
        g.enabled,
        g.log_interval > 0,
    ensures
        exists|k: nat|
            {
                &&& k < g.log_interval
                &&& #[trigger] schedule_step(
                    ScheduleModel { frame_count: g.frame_count + k, ..g },
                    DiagnosticKind::Recognition,
                ).0 == LogAction::Write
                &&& forall|j: nat|
                    j < g.log_interval && j != k ==> #[trigger] schedule_step(
                        ScheduleModel { frame_count: g.frame_count + j, ..g },
                        DiagnosticKind::Recognition,
                    ).0 == LogAction::Skip
            },
        schedule_step(g, DiagnosticKind::Recognition).0 != LogAction::WriteAndFlush,
{
    let n = g.log_interval;
    let k = (n - 1 - g.frame_count % n) as nat;
    lemma_one_multiple_in_window(g.frame_count, n, k);
    assert forall|j: nat| j < n && j != k implies #[trigger] schedule_step(
        ScheduleModel { frame_count: g.frame_count + j, ..g },
        DiagnosticKind::Recognition,
    ).0 == LogAction::Skip by {
        lemma_one_multiple_in_window(g.frame_count, n, j);
    }
    assert(schedule_step(ScheduleModel { frame_count: g.frame_count + k, ..g }, DiagnosticKind::Recognition).0
        == LogAction::Write);
}

/// A hit, near miss, state change or finished training is written and flushed
/// whenever logging is on, and leaves the cycle count alone.
pub proof fn important_events_are_flushed(g: ScheduleModel, kind: DiagnosticKind)
    requires
        g.enabled,
        kind != DiagnosticKind::Recognition,
    ensures
        schedule_step(g, kind) == (LogAction::WriteAndFlush, g),
{
}

} // verus!

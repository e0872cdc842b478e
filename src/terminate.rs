//! Termination controller: the graceful-then-forceful escalation that
//! drives one flagged process to a terminal outcome.
//!
//! The controller decides; its driver acts. [`Termination::next_action`]
//! names what the driver must do (check liveness, send a signal, sleep one
//! second, or report the outcome) and [`Termination::on_event`] takes what
//! came of it.
use vstd::prelude::*;
use crate::model::{ActionResult, Process};

verus! {

/// Where an escalation stands.
#[derive(Debug, Clone, Copy, PartialEq, Eq, Structural)]
pub enum Stage {
    /// The pre-attempt liveness check is due.
    Start,
    /// The graceful signal is due.
    Graceful,
    /// One more second of the grace period is to be waited; `waited`
    /// seconds have passed.
    Waiting { waited: i64 },
    /// A liveness check is due after `waited` seconds of the grace period.
    Recheck { waited: i64 },
    /// The forceful signal is due.
    Force,
    /// The final liveness check after the forceful signal is due.
    Confirm,
    /// The escalation is over with `result`.
    Done { result: ActionResult },
}

/// What the driver of an escalation must do next.
#[derive(Debug, Clone, Copy, PartialEq, Eq, Structural)]
pub enum ControlAction {
    /// Report whether the process is alive.
    CheckAlive,
    /// Send the graceful terminate signal.
    SendGraceful,
    /// Send the forceful kill signal.
    SendForce,
    /// Sleep one second.
    Sleep,
    /// Stop: the outcome is `result`.
    Finish { result: ActionResult },
}

/// What came of the last action.
#[derive(Debug, Clone, Copy, PartialEq, Eq, Structural)]
pub enum ControlEvent {
    /// The process is alive.
    Alive,
    /// The process is gone.
    Exited,
    /// The signal was delivered.
    Delivered,
    /// The operating system refused to deliver the signal.
    Denied,
    /// The process vanished before the signal reached it.
    Vanished,
    /// The signal could not be sent for another reason.
    SignalFailed,
    /// One second has passed.
    Slept,
    /// Shutdown was asked for during a sleep: the rest of the grace period
    /// is skipped, but the escalation still runs to its outcome.
    Interrupted,
}

/// One escalation against process `pid`. In `simulate` mode liveness is
/// checked but no signal is sent and no grace period is waited: a live
/// process is reported as the `Success` that a real attempt would aim for.
#[derive(Debug, Clone, Copy, PartialEq, Eq, Structural)]
pub struct Termination {
    pub pid: i32,
    pub grace_period_secs: i64,
    pub simulate: bool,
    pub stage: Stage,
}

/// The grace period, with a negative one counted as none.
pub open spec fn grace(t: Termination) -> int {
    if t.grace_period_secs > 0 {
        t.grace_period_secs as int
    } else {
        0
    }
}

/// The stage an escalation starts in: a pid that is not positive fails at
/// once, before any interaction with the operating system.
pub open spec fn start_stage(pid: i32) -> Stage {
    if pid <= 0 {
        Stage::Done { result: ActionResult::Failed }
    } else {
        Stage::Start
    }
}

/// Well-formed escalation: the seconds counted stay within the grace period.
pub open spec fn wf(t: Termination) -> bool {
    match t.stage {
        Stage::Waiting { waited } => 0 <= waited < grace(t),
        Stage::Recheck { waited } => 0 <= waited <= grace(t),
        _ => true,
    }
}

pub open spec fn is_done(t: Termination) -> bool {
    t.stage is Done
}

/// The action that stage `t.stage` calls for.
pub open spec fn action_of(t: Termination) -> ControlAction {
    match t.stage {
        Stage::Start => ControlAction::CheckAlive,
        Stage::Graceful => ControlAction::SendGraceful,
        Stage::Waiting { .. } => ControlAction::Sleep,
        Stage::Recheck { .. } => ControlAction::CheckAlive,
        Stage::Force => ControlAction::SendForce,
        Stage::Confirm => ControlAction::CheckAlive,
        Stage::Done { result } => ControlAction::Finish { result },
    }
}

/// The outcome of a signal that was not delivered.
pub open spec fn undelivered(e: ControlEvent) -> ActionResult {
    match e {
        ControlEvent::Denied => ActionResult::PermissionDenied,
        ControlEvent::Vanished => ActionResult::NotFound,
        _ => ActionResult::Failed,
    }
}

/// The stage after event `e` in `t`. An event that does not answer the
/// stage's action ends the escalation with `Failed`; a finished escalation
/// stays as it is.
pub open spec fn next_stage(t: Termination, e: ControlEvent) -> Stage {
    match t.stage {
        Stage::Start => match e {
            ControlEvent::Alive => if t.simulate {
                Stage::Done { result: ActionResult::Success }
            } else {
                Stage::Graceful
            },
            ControlEvent::Exited => Stage::Done { result: ActionResult::AlreadyDead },
            _ => Stage::Done { result: ActionResult::Failed },
        },
        Stage::Graceful => match e {
            ControlEvent::Delivered => if grace(t) == 0 {
                Stage::Recheck { waited: 0 }
            } else {
                Stage::Waiting { waited: 0 }
            },
            _ => Stage::Done { result: undelivered(e) },
        },
        Stage::Waiting { waited } => match e {
            ControlEvent::Slept => Stage::Recheck { waited: (waited + 1) as i64 },
            ControlEvent::Interrupted => Stage::Recheck { waited: grace(t) as i64 },
            _ => Stage::Done { result: ActionResult::Failed },
        },
        Stage::Recheck { waited } => match e {
            ControlEvent::Exited => Stage::Done { result: ActionResult::Success },
            ControlEvent::Alive => if waited < grace(t) {
                Stage::Waiting { waited }
            } else {
                Stage::Force
            },
            _ => Stage::Done { result: ActionResult::Failed },
        },
        Stage::Force => match e {
            ControlEvent::Delivered => Stage::Confirm,
            _ => Stage::Done { result: undelivered(e) },
        },
        Stage::Confirm => match e {
            ControlEvent::Exited => Stage::Done { result: ActionResult::Success },
            ControlEvent::Alive => Stage::Done { result: ActionResult::TimedOut },
            _ => Stage::Done { result: ActionResult::Failed },
        },
        Stage::Done { result } => Stage::Done { result },
    }
}

/// An upper bound on the actions left before the outcome is reported.
pub open spec fn steps_left(t: Termination) -> nat {
    let g = grace(t);
    match t.stage {
        Stage::Start => (5 + 2 * g) as nat,
        Stage::Graceful => (4 + 2 * g) as nat,
        Stage::Waiting { waited } => (2 + 2 * (g - waited)) as nat,
        Stage::Recheck { waited } => (3 + 2 * (g - waited)) as nat,
        Stage::Force => 2,
        Stage::Confirm => 1,
        Stage::Done { .. } => 0,
    }
}

impl Termination {
    /// An escalation against `pid` that has not started yet.
    pub fn new(pid: i32, grace_period_secs: i64, simulate: bool) -> (r: Termination)
        ensures
            r.pid == pid,
            r.grace_period_secs == grace_period_secs,
            r.simulate == simulate,
            r.stage == start_stage(pid),
            wf(r),
    {
        let stage = if pid <= 0 {
            Stage::Done { result: ActionResult::Failed }
        } else {
            Stage::Start
        };
        Termination { pid, grace_period_secs, simulate, stage }
    }

    /// What the driver must do now.
    pub fn next_action(&self) -> (r: ControlAction)
        ensures
            r == action_of(*self),
    {
        match self.stage {
            Stage::Start => ControlAction::CheckAlive,
            Stage::Graceful => ControlAction::SendGraceful,
            Stage::Waiting { .. } => ControlAction::Sleep,
            Stage::Recheck { .. } => ControlAction::CheckAlive,
            Stage::Force => ControlAction::SendForce,
            Stage::Confirm => ControlAction::CheckAlive,
            Stage::Done { result } => ControlAction::Finish { result },
        }
    }

    /// The outcome, once the escalation is over.
    pub fn outcome(&self) -> (r: Option<ActionResult>)
        ensures
            r == match self.stage {
                Stage::Done { result } => Some(result),
                _ => None::<ActionResult>,
            },
    {
        match self.stage {
            Stage::Done { result } => Some(result),
            _ => None,
        }
    }

    /// Takes what came of the last action. Every step of an unfinished
    /// escalation brings it closer to its outcome.
    pub fn on_event(&mut self, e: ControlEvent)
        requires
            wf(*old(self)),
        ensures
            final(self).pid == old(self).pid,
            final(self).grace_period_secs == old(self).grace_period_secs,
            final(self).simulate == old(self).simulate,
            final(self).stage == next_stage(*old(self), e),
            wf(*final(self)),
            !is_done(*old(self)) ==> steps_left(*final(self)) < steps_left(*old(self)),
    {
        let failed = Stage::Done { result: ActionResult::Failed };
        let grace_secs: i64 = if self.grace_period_secs > 0 {
            self.grace_period_secs
        } else {
            0
        };
        let undelivered = match e {
            ControlEvent::Denied => ActionResult::PermissionDenied,
            ControlEvent::Vanished => ActionResult::NotFound,
            _ => ActionResult::Failed,
        };
        let next = match self.stage {
            Stage::Start => match e {
                ControlEvent::Alive => if self.simulate {
                    Stage::Done { result: ActionResult::Success }
                } else {
                    Stage::Graceful
                },
                ControlEvent::Exited => Stage::Done { result: ActionResult::AlreadyDead },
                _ => failed,
            },
            Stage::Graceful => match e {
                ControlEvent::Delivered => if grace_secs == 0 {
                    Stage::Recheck { waited: 0 }
                } else {
                    Stage::Waiting { waited: 0 }
                },
                _ => Stage::Done { result: undelivered },
            },
            Stage::Waiting { waited } => match e {
                ControlEvent::Slept => Stage::Recheck { waited: waited + 1 },
                ControlEvent::Interrupted => Stage::Recheck { waited: grace_secs },
                _ => failed,
            },
            Stage::Recheck { waited } => match e {
                ControlEvent::Exited => Stage::Done { result: ActionResult::Success },
                ControlEvent::Alive => if waited < grace_secs {
                    Stage::Waiting { waited }
                } else {
                    Stage::Force
                },
                _ => failed,
            },
            Stage::Force => match e {
                ControlEvent::Delivered => Stage::Confirm,
                _ => Stage::Done { result: undelivered },
            },
            Stage::Confirm => match e {
                ControlEvent::Exited => Stage::Done { result: ActionResult::Success },
                ControlEvent::Alive => Stage::Done { result: ActionResult::TimedOut },
                _ => failed,
            },
            Stage::Done { result } => Stage::Done { result },
        };
        self.stage = next;
    }
}

/// A pid that is not positive fails at once, whatever the grace period and
/// mode: the first action reports `Failed`, so the operating system is never
/// asked anything, and the escalation stays over whatever event comes.
pub proof fn lemma_invalid_pid_fails_at_once(
    pid: i32,
    grace_period_secs: i64,
    simulate: bool,
    e: ControlEvent,
)
    requires
        pid <= 0,
    ensures
        ({
            let t = Termination { pid, grace_period_secs, simulate, stage: start_stage(pid) };
            &&& action_of(t) == (ControlAction::Finish { result: ActionResult::Failed })
            &&& next_stage(t, e) == t.stage
        }),
{
}

/// The stage that `t` reaches once it has taken `answers`, in order.
pub open spec fn stage_after(t: Termination, answers: Seq<ControlEvent>) -> Stage
    decreases answers.len(),
{
    if answers.len() == 0 {
        t.stage
    } else {
        stage_after(Termination { stage: next_stage(t, answers[0]), ..t }, answers.drop_first())
    }
}

/// The outcome of an escalation against `pid` whose actions are answered by
/// `answers`, in order; `None` when it is not over after the last answer.
pub open spec fn escalation_outcome(
    pid: i32,
    grace_period_secs: i64,
    simulate: bool,
    answers: Seq<ControlEvent>,
) -> Option<ActionResult> {
    match stage_after(
        Termination { pid, grace_period_secs, simulate, stage: start_stage(pid) },
        answers,
    ) {
        Stage::Done { result } => Some(result),
        _ => None,
    }
}

/// Runs an escalation against `pid` whose actions are answered by
/// `answers`, in order, and gives its outcome; see [`escalation_outcome`].
pub fn run_escalation(
    pid: i32,
    grace_period_secs: i64,
    simulate: bool,
    answers: &Vec<ControlEvent>,
) -> (r: Option<ActionResult>)
    ensures
        r == escalation_outcome(pid, grace_period_secs, simulate, answers@),
{
    let mut t = Termination::new(pid, grace_period_secs, simulate);
    let ghost start = t;
    let mut i: usize = 0;
    assert(answers@.subrange(0, answers@.len() as int) =~= answers@);
    while i < answers.len()
        invariant
            wf(t),
            t.pid == pid,
            t.grace_period_secs == grace_period_secs,
            t.simulate == simulate,
            i <= answers@.len(),
            stage_after(t, answers@.subrange(i as int, answers@.len() as int)) == stage_after(
                start,
                answers@,
            ),
        decreases answers@.len() - i,
    {
        let ghost rest = answers@.subrange(i as int, answers@.len() as int);
        let ghost before = t;
        t.on_event(answers[i]);
        assert(t == Termination { stage: next_stage(before, rest[0]), ..before });
        assert(rest.drop_first() =~= answers@.subrange(i + 1, answers@.len() as int));
        i += 1;
    }
    t.outcome()
}

/// Whether an escalation against `pid` answered by `answers` ends in
/// `Success`; every other outcome, and an unfinished escalation, gives
/// `false`.
pub fn kill_succeeds(pid: i32, grace_period_secs: i64, answers: &Vec<ControlEvent>) -> (r: bool)
    ensures
        r == (escalation_outcome(pid, grace_period_secs, false, answers@) == Some(
            ActionResult::Success,
        )),
{
    match run_escalation(pid, grace_period_secs, false, answers) {
        Some(ActionResult::Success) => true,
        _ => false,
    }
}

/// The answers of a live process that leaves as soon as it receives the
/// graceful signal: alive, signal delivered, (one second slept when there is
/// a grace period,) gone.
pub open spec fn compliant_answers(grace_period_secs: i64) -> Seq<ControlEvent> {
    if grace_period_secs > 0 {
        seq![ControlEvent::Alive, ControlEvent::Delivered, ControlEvent::Slept, ControlEvent::Exited]
    } else {
        seq![ControlEvent::Alive, ControlEvent::Delivered, ControlEvent::Exited]
    }
}

/// See [`compliant_answers`].
fn compliant_answer_list(grace_period_secs: i64) -> (r: Vec<ControlEvent>)
    ensures
        r@ == compliant_answers(grace_period_secs),
{
    let mut answers: Vec<ControlEvent> = Vec::new();
    answers.push(ControlEvent::Alive);
    answers.push(ControlEvent::Delivered);
    if grace_period_secs > 0 {
        answers.push(ControlEvent::Slept);
    }
    answers.push(ControlEvent::Exited);
    assert(answers@ =~= compliant_answers(grace_period_secs));
    answers
}

/// The outcome of terminating `pid` by the escalation policy, for a process
/// that leaves on the graceful signal: `Failed` for a pid that is not
/// positive, `Success` otherwise.
pub open spec fn terminate_outcome(pid: i32) -> ActionResult {
    if pid <= 0 {
        ActionResult::Failed
    } else {
        ActionResult::Success
    }
}

/// An escalation answered by [`compliant_answers`] ends as
/// [`terminate_outcome`] says.
proof fn lemma_compliant_outcome(pid: i32, grace_period_secs: i64)
    ensures
        escalation_outcome(pid, grace_period_secs, false, compliant_answers(grace_period_secs))
            == Some(terminate_outcome(pid)),
{
    reveal_with_fuel(stage_after, 5);
    let a = compliant_answers(grace_period_secs);
    let t0 = Termination { pid, grace_period_secs, simulate: false, stage: start_stage(pid) };
    let a1 = a.drop_first();
    let a2 = a1.drop_first();
    let a3 = a2.drop_first();
    assert(a[0] == ControlEvent::Alive);
    assert(a1[0] == ControlEvent::Delivered);
    if grace_period_secs > 0 {
        assert(a2[0] == ControlEvent::Slept);
        assert(a3[0] == ControlEvent::Exited);
        assert(a3.drop_first() =~= Seq::<ControlEvent>::empty());
    } else {
        assert(a2[0] == ControlEvent::Exited);
        assert(a3 =~= Seq::<ControlEvent>::empty());
    }
    let t1 = Termination { stage: next_stage(t0, a[0]), ..t0 };
    let t2 = Termination { stage: next_stage(t1, a1[0]), ..t1 };
    let t3 = Termination { stage: next_stage(t2, a2[0]), ..t2 };
    assert(stage_after(t0, a) == stage_after(t1, a1));
    assert(stage_after(t1, a1) == stage_after(t2, a2));
    assert(stage_after(t2, a2) == stage_after(t3, a3));
}

/// Runs a full escalation against `pid` with a grace period of
/// `grace_period` seconds, answered as a process that leaves on the
/// graceful signal would answer it ([`compliant_answers`]); see
/// [`terminate_outcome`].
pub fn terminate_process(pid: i32, grace_period: i64) -> (r: ActionResult)
    ensures
        Some(r) == escalation_outcome(pid, grace_period, false, compliant_answers(grace_period)),
        r == terminate_outcome(pid),
{
    proof {
        lemma_compliant_outcome(pid, grace_period);
    }
    let answers = compliant_answer_list(grace_period);
    match run_escalation(pid, grace_period, false, &answers) {
        Some(result) => result,
        None => ActionResult::Failed,
    }
}

/// Whether terminating `proc` as [`terminate_process`] does ends in
/// `Success`; every other outcome, including a partly successful
/// escalation, gives `false`.
pub fn safe_kill_with_grace(proc: Process, grace_period: i64) -> (r: bool)
    ensures
        r == (escalation_outcome(proc.pid, grace_period, false, compliant_answers(grace_period))
            == Some(ActionResult::Success)),
        r == (terminate_outcome(proc.pid) == ActionResult::Success),
{
    proof {
        lemma_compliant_outcome(proc.pid, grace_period);
    }
    let answers = compliant_answer_list(grace_period);
    kill_succeeds(proc.pid, grace_period, &answers)
}

} // verus!

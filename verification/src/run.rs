//! One example run as a state machine: the caller does the outside work
//! (running the agent, capturing the diff, asking the judge) and reports
//! what came of it; the run decides what happens next.

use crate::assertions::{count_passed, ids_distinct, passed_among, AssertionOutcome};
use crate::error::{AgentFailure, ExampleError};
use crate::example::{
    one_more_turn, ConversationStep, Example, ExampleContext, ExampleMetadata, JudgeAssertion,
    TurnOutcome,
};
use crate::judge::{
    all_resolved, failed_in, indeterminate_in, passed_in, results_of, slot_after,
    some_unavailable, tally, untouched, JudgeError, JudgePanel, JudgeResponse, JudgeResult,
    JudgeSlot, JudgeTally, JudgeVerdict,
};
use crate::thread::{assistant_messages, AgentThread};
use vstd::prelude::*;

verus! {

/// Where a run stands.
#[derive(Clone, Copy, Debug, PartialEq, Eq, Structural)]
pub enum RunPhase {
    NotStarted,
    /// The conversation is executing.
    Running,
    /// The conversation is over and the diff is captured.
    AwaitingJudgment,
    /// Every rubric has a verdict from the judge.
    Graded,
    Reported,
    /// The agent aborted a turn.
    AgentFailed,
    /// The conversation recorded more outcomes than it declared.
    AssertionBudgetExceeded,
    /// Grading ended with a rubric that the judge could not be reached for.
    JudgeUnavailable,
    /// The run was cancelled while the agent was working.
    Cancelled,
    /// The workspace could not be prepared.
    SetupFailed,
    /// The conversation failed otherwise.
    ConversationFailed,
}

/// What a running conversation waits for.
#[derive(Clone, Copy, Debug, PartialEq, Eq, Structural)]
pub enum Pending {
    /// The conversation is to be entered, or resumed.
    Conversation,
    /// The agent is to run to the end of its turn.
    AgentTurn,
    /// The diff of the workspace is to be captured.
    Diff,
}

/// What the caller has to do next.
#[derive(Clone, Copy, Debug, PartialEq, Eq, Structural)]
pub enum RunAction {
    Start,
    Converse,
    RunAgent,
    CaptureDiff,
    Judge,
    Report,
}

/// The phase in which a run ends when `error` aborts it.
pub open spec fn failure_phase(error: ExampleError) -> RunPhase {
    match error {
        ExampleError::Setup(_) => RunPhase::SetupFailed,
        ExampleError::Agent(AgentFailure::Cancelled) => RunPhase::Cancelled,
        ExampleError::Agent(_) => RunPhase::AgentFailed,
        ExampleError::TooManyAssertions { .. } => RunPhase::AssertionBudgetExceeded,
        _ => RunPhase::ConversationFailed,
    }
}

/// The phases in which the judge is, or has been, at work.
pub open spec fn judging_phase(phase: RunPhase) -> bool {
    phase is AwaitingJudgment || phase is Graded || phase is JudgeUnavailable
}

/// The phases that an error leads to.
pub open spec fn errored_phase(phase: RunPhase) -> bool {
    phase is AgentFailed || phase is AssertionBudgetExceeded || phase is Cancelled
        || phase is SetupFailed || phase is ConversationFailed
}

/// The phase that the state of the rubrics calls for once the diff is there.
pub open spec fn graded_phase(slots: Seq<JudgeSlot>) -> RunPhase {
    if !all_resolved(slots) {
        RunPhase::AwaitingJudgment
    } else if some_unavailable(slots) {
        RunPhase::JudgeUnavailable
    } else {
        RunPhase::Graded
    }
}

/// The phase under which a run is reported: a graded run becomes reported,
/// every other phase is reported as it stands.
pub open spec fn reported_phase(phase: RunPhase) -> RunPhase {
    if phase is Graded {
        RunPhase::Reported
    } else {
        phase
    }
}

/// The action that a state calls for.
pub open spec fn action_for(phase: RunPhase, pending: Pending) -> RunAction {
    match phase {
        RunPhase::NotStarted => RunAction::Start,
        RunPhase::Running => match pending {
            Pending::Conversation => RunAction::Converse,
            Pending::AgentTurn => RunAction::RunAgent,
            Pending::Diff => RunAction::CaptureDiff,
        },
        RunPhase::AwaitingJudgment => RunAction::Judge,
        _ => RunAction::Report,
    }
}

/// The run of one example.
#[derive(Debug)]
pub struct ExampleRun {
    phase: RunPhase,
    pending: Pending,
    cx: ExampleContext,
    panel: JudgePanel,
    diff: Option<String>,
    error: Option<ExampleError>,
}

/// What a run leaves behind.
#[derive(Clone, Debug, PartialEq, Eq)]
pub struct ExampleReport {
    pub name: String,
    pub meta: ExampleMetadata,
    pub phase: RunPhase,
    /// The error that aborted the run, if one did.
    pub error: Option<ExampleError>,
    /// The exact checks, in the order they were recorded.
    pub outcomes: Vec<AssertionOutcome>,
    /// One result per declared rubric, in the order of declaration.
    pub judge_results: Vec<JudgeResult>,
    pub diff: Option<String>,
}

/// How a report reads as a whole.
#[derive(Clone, Copy, Debug, PartialEq, Eq, Structural)]
pub enum ReportStatus {
    /// The run was aborted by an error, or never came to its end.
    RunErrored,
    /// The run came to its end and a check or a rubric failed.
    AssertionFailed,
    /// Nothing failed, but a rubric could not be determined.
    JudgmentIndeterminate,
    /// Everything passed.
    Passed,
}

/// How a report with these contents reads as a whole.
///
/// A run that did not come to its end is an errored run, whatever it
/// recorded. Of a run that did, a failed check or rubric weighs more than a
/// rubric that could not be determined.
pub open spec fn status_of(
    phase: RunPhase,
    outcomes: Seq<AssertionOutcome>,
    results: Seq<JudgeResult>,
) -> ReportStatus {
    if !(phase is Reported || phase is JudgeUnavailable) {
        ReportStatus::RunErrored
    } else if passed_among(outcomes) < outcomes.len() || failed_in(results) > 0 {
        ReportStatus::AssertionFailed
    } else if indeterminate_in(results) > 0 {
        ReportStatus::JudgmentIndeterminate
    } else {
        ReportStatus::Passed
    }
}

impl ExampleReport {
    /// Counts the rubrics that passed, failed, and could not be determined.
    pub fn judge_tally(&self) -> (t: JudgeTally)
        ensures
            t.passed == passed_in(self.judge_results@),
            t.failed == failed_in(self.judge_results@),
            t.indeterminate == indeterminate_in(self.judge_results@),
            t.passed + t.failed + t.indeterminate == self.judge_results@.len(),
    {
        tally(&self.judge_results)
    }

    /// How the report reads as a whole.
    pub fn status(&self) -> (status: ReportStatus)
        ensures
            status == status_of(self.phase, self.outcomes@, self.judge_results@),
    {
        match self.phase {
            RunPhase::Reported | RunPhase::JudgeUnavailable => {},
            _ => {
                return ReportStatus::RunErrored;
            },
        }
        let t = tally(&self.judge_results);
        if count_passed(&self.outcomes) < self.outcomes.len() || t.failed > 0 {
            ReportStatus::AssertionFailed
        } else if t.indeterminate > 0 {
            ReportStatus::JudgmentIndeterminate
        } else {
            ReportStatus::Passed
        }
    }
}

impl ExampleRun {
    /// Where the run stands.
    pub closed spec fn phase(&self) -> RunPhase {
        self.phase
    }

    /// What a running conversation waits for. It has no meaning in any
    /// phase but `Running`.
    pub closed spec fn pending(&self) -> Pending {
        self.pending
    }

    /// The context that the conversation works on.
    pub closed spec fn context(&self) -> ExampleContext {
        self.cx
    }

    /// The rubrics with their grading state.
    pub closed spec fn panel(&self) -> JudgePanel {
        self.panel
    }

    /// The captured diff, once there is one.
    pub closed spec fn diff(&self) -> Option<String> {
        self.diff
    }

    /// The error that aborted the run, if one did.
    pub closed spec fn error(&self) -> Option<ExampleError> {
        self.error
    }

    /// The parts are well formed, and the phase agrees with them: the judge
    /// is at work only once a turn has completed and the diff is there, no
    /// rubric is touched before, and an error stands exactly in the phases
    /// that an error leads to.
    pub open spec fn wf(&self) -> bool {
        &&& self.context().wf()
        &&& self.panel().wf()
        &&& !(self.phase() is Reported)
        &&& judging_phase(self.phase()) ==> {
            &&& self.context().turns() >= 1
            &&& self.diff() is Some
            &&& self.phase() == graded_phase(self.panel().slots())
        }
        &&& !judging_phase(self.phase()) ==> untouched(self.panel().slots())
        &&& self.phase() is Running && self.pending() is Diff ==> self.context().turns() >= 1
        &&& errored_phase(self.phase()) <==> self.error() is Some
        &&& self.error() matches Some(e) ==> self.phase() == failure_phase(e)
    }

    /// Everything but the phase, what is pending and the error is as in `before`.
    pub open spec fn same_work_as(&self, before: ExampleRun) -> bool {
        &&& self.context() == before.context()
        &&& self.panel() == before.panel()
        &&& self.diff() == before.diff()
    }

    /// A run that has not started, over `thread`, with the rubrics to be
    /// judged and the number of calls allowed per rubric.
    pub fn new(
        meta: ExampleMetadata,
        thread: AgentThread,
        rubrics: Vec<JudgeAssertion>,
        max_judge_attempts: usize,
    ) -> (run: ExampleRun)
        requires
            thread.wf(),
        ensures
            run.wf(),
            run.phase() is NotStarted,
            run.context().metadata() == meta,
            run.context().thread() == thread,
            run.context().recorder()@ == Seq::<AssertionOutcome>::empty(),
            run.context().turns() == 0,
            run.panel().rubrics() == rubrics@,
            run.diff() is None,
            run.error() is None,
    {
        ExampleRun {
            phase: RunPhase::NotStarted,
            pending: Pending::Conversation,
            cx: ExampleContext::new(meta, thread),
            panel: JudgePanel::new(rubrics, max_judge_attempts),
            diff: None,
            error: None,
        }
    }

    /// Where the run stands.
    pub fn current_phase(&self) -> (phase: RunPhase)
        ensures
            phase == self.phase(),
    {
        self.phase
    }

    /// The context of the run, for inspection.
    pub fn example_context(&self) -> (cx: &ExampleContext)
        ensures
            *cx == self.context(),
    {
        &self.cx
    }

    /// The rubrics and their grading state.
    pub fn judge_panel(&self) -> (panel: &JudgePanel)
        ensures
            *panel == self.panel(),
    {
        &self.panel
    }

    /// The captured diff, once there is one.
    pub fn captured_diff(&self) -> (diff: &Option<String>)
        ensures
            *diff == self.diff(),
    {
        &self.diff
    }

    /// The error that aborted the run, if one did.
    pub fn failure(&self) -> (error: &Option<ExampleError>)
        ensures
            *error == self.error(),
    {
        &self.error
    }

    /// What the caller has to do next.
    pub fn next_action(&self) -> (action: RunAction)
        ensures
            action == action_for(self.phase(), self.pending()),
    {
        match self.phase {
            RunPhase::NotStarted => RunAction::Start,
            RunPhase::Running => match self.pending {
                Pending::Conversation => RunAction::Converse,
                Pending::AgentTurn => RunAction::RunAgent,
                Pending::Diff => RunAction::CaptureDiff,
            },
            RunPhase::AwaitingJudgment => RunAction::Judge,
            _ => RunAction::Report,
        }
    }

    /// Ends the run in the phase that `error` leads to.
    fn fail(&mut self, error: ExampleError)
        requires
            old(self).wf(),
            !judging_phase(old(self).phase()),
        ensures
            final(self).wf(),
            final(self).same_work_as(*old(self)),
            final(self).phase() == failure_phase(error),
            final(self).error() == Some(error),
    {
        self.phase = match &error {
            ExampleError::Setup(_) => RunPhase::SetupFailed,
            ExampleError::Agent(AgentFailure::Cancelled) => RunPhase::Cancelled,
            ExampleError::Agent(_) => RunPhase::AgentFailed,
            ExampleError::TooManyAssertions { .. } => RunPhase::AssertionBudgetExceeded,
            _ => RunPhase::ConversationFailed,
        };
        self.error = Some(error);
    }

    /// The workspace could not be prepared: a run that has not started ends
    /// as `SetupFailed`. Any other run ignores the call and answers `false`.
    pub fn setup_failed(&mut self, reason: String) -> (applied: bool)
        requires
            old(self).wf(),
        ensures
            final(self).wf(),
            final(self).same_work_as(*old(self)),
            applied == (old(self).phase() is NotStarted),
            applied ==> final(self).phase() is SetupFailed && final(self).error() == Some(
                ExampleError::Setup(reason),
            ),
            !applied ==> *final(self) == *old(self),
    {
        match self.phase {
            RunPhase::NotStarted => {
                self.fail(ExampleError::Setup(reason));
                true
            },
            _ => false,
        }
    }

    /// Starts a run that has not started: it is now running, with the
    /// conversation to be entered. Any other run ignores the call and
    /// answers `false`.
    pub fn start(&mut self) -> (applied: bool)
        requires
            old(self).wf(),
        ensures
            final(self).wf(),
            final(self).same_work_as(*old(self)),
            applied == (old(self).phase() is NotStarted),
            applied ==> final(self).phase() is Running && final(self).pending() is Conversation
                && final(self).error() is None,
            !applied ==> *final(self) == *old(self),
    {
        match self.phase {
            RunPhase::NotStarted => {
                self.phase = RunPhase::Running;
                self.pending = Pending::Conversation;
                true
            },
            _ => false,
        }
    }

    /// Takes in what the conversation answered when it handed control back.
    ///
    /// Applies only while the conversation is the thing awaited; otherwise
    /// the call is ignored and answers `false`. `AwaitAgent` leaves the run
    /// waiting for the agent. `Finished` leaves it waiting for the diff,
    /// unless no agent turn has completed, which ends the run with
    /// `NoCompletedTurn`. An error ends the run in the phase it leads to.
    pub fn conversation_returned(&mut self, step: Result<ConversationStep, ExampleError>) -> (applied:
        bool)
        requires
            old(self).wf(),
        ensures
            final(self).wf(),
            final(self).same_work_as(*old(self)),
            applied == (old(self).phase() is Running && old(self).pending() is Conversation),
            !applied ==> *final(self) == *old(self),
            applied ==> match step {
                Ok(ConversationStep::AwaitAgent) => {
                    &&& final(self).phase() is Running
                    &&& final(self).pending() is AgentTurn
                    &&& final(self).error() is None
                },
                Ok(ConversationStep::Finished) => if old(self).context().turns() >= 1 {
                    &&& final(self).phase() is Running
                    &&& final(self).pending() is Diff
                    &&& final(self).error() is None
                } else {
                    &&& final(self).phase() is ConversationFailed
                    &&& final(self).error() == Some(ExampleError::NoCompletedTurn)
                },
                Err(e) => {
                    &&& final(self).phase() == failure_phase(e)
                    &&& final(self).error() == Some(e)
                },
            },
    {
        match (self.phase, self.pending) {
            (RunPhase::Running, Pending::Conversation) => {},
            _ => {
                return false;
            },
        }
        match step {
            Ok(ConversationStep::AwaitAgent) => {
                self.pending = Pending::AgentTurn;
            },
            Ok(ConversationStep::Finished) => {
                if self.cx.turns_completed() >= 1 {
                    self.pending = Pending::Diff;
                } else {
                    self.fail(ExampleError::NoCompletedTurn);
                }
            },
            Err(e) => {
                self.fail(e);
            },
        }
        true
    }

    /// Enters or resumes the conversation of `example` and takes in its
    /// answer.
    ///
    /// Applies only while the conversation is the thing awaited; otherwise
    /// the call is ignored and answers `false`. What the conversation does
    /// is its own affair, within the bounds every conversation keeps:
    /// nothing recorded is lost, and no turn is made up. Its answer is
    /// taken in as `conversation_returned` says.
    pub fn converse<E: Example>(&mut self, example: &E) -> (applied: bool)
        requires
            old(self).wf(),
        ensures
            final(self).wf(),
            applied == (old(self).phase() is Running && old(self).pending() is Conversation),
            !applied ==> *final(self) == *old(self),
            applied ==> {
                &&& final(self).context().continues(old(self).context())
                &&& final(self).panel() == old(self).panel()
                &&& final(self).diff() == old(self).diff()
                &&& final(self).phase() is Running || errored_phase(final(self).phase())
                &&& final(self).phase() is Running ==> !(final(self).pending() is Conversation)
            },
    {
        match (self.phase, self.pending) {
            (RunPhase::Running, Pending::Conversation) => {},
            _ => {
                return false;
            },
        }
        let step = example.conversation(&mut self.cx);
        self.conversation_returned(step)
    }

    /// Takes in how the agent's turn ended.
    ///
    /// Applies only while the agent is the thing awaited; otherwise the
    /// call is ignored and answers `false`. A completed turn is added to
    /// the transcript and the conversation is to be resumed. An aborted
    /// turn ends the run: as `Cancelled` where the turn was cancelled, as
    /// `AgentFailed` otherwise. The recorded outcomes stay as they are in
    /// every case, and no rubric is graded.
    pub fn turn_ended(&mut self, outcome: TurnOutcome) -> (applied: bool)
        requires
            old(self).wf(),
        ensures
            final(self).wf(),
            applied == (old(self).phase() is Running && old(self).pending() is AgentTurn),
            !applied ==> *final(self) == *old(self),
            final(self).panel() == old(self).panel(),
            final(self).diff() == old(self).diff(),
            final(self).context().metadata() == old(self).context().metadata(),
            final(self).context().recorder() == old(self).context().recorder(),
            applied && old(self).context().thread().closed() ==> {
                &&& final(self).phase() is ConversationFailed
                &&& final(self).error() == Some(ExampleError::ThreadClosed)
                &&& final(self).context() == old(self).context()
            },
            applied && !old(self).context().thread().closed() ==> match outcome {
                TurnOutcome::Completed(replies) | TurnOutcome::TurnLimitReached(replies) => {
                    &&& final(self).phase() is Running
                    &&& final(self).pending() is Conversation
                    &&& final(self).error() is None
                    &&& final(self).context().thread()@ == old(self).context().thread()@
                        + assistant_messages(old(self).context().thread()@.len() as int, replies@)
                    &&& final(self).context().turns() == one_more_turn(old(self).context().turns())
                },
                TurnOutcome::Failed(failure) => {
                    &&& final(self).phase() == failure_phase(ExampleError::Agent(failure))
                    &&& final(self).error() == Some(ExampleError::Agent(failure))
                    &&& final(self).context().thread().closed()
                    &&& final(self).context().thread()@ == old(self).context().thread()@
                    &&& final(self).context().turns() == old(self).context().turns()
                },
            },
    {
        match (self.phase, self.pending) {
            (RunPhase::Running, Pending::AgentTurn) => {},
            _ => {
                return false;
            },
        }
        match self.cx.run_to_end(outcome) {
            Ok(()) => {
                self.pending = Pending::Conversation;
            },
            Err(e) => {
                self.fail(e);
            },
        }
        true
    }

    /// Takes in the diff of the workspace.
    ///
    /// Applies only while the diff is the thing awaited; otherwise the call
    /// is ignored and answers `false`. With the diff in hand the rubrics
    /// await judgment; a run without rubrics is graded at once.
    pub fn diff_captured(&mut self, diff: String) -> (applied: bool)
        requires
            old(self).wf(),
        ensures
            final(self).wf(),
            applied == (old(self).phase() is Running && old(self).pending() is Diff),
            !applied ==> *final(self) == *old(self),
            applied ==> {
                &&& final(self).context() == old(self).context()
                &&& final(self).panel() == old(self).panel()
                &&& final(self).diff() == Some(diff)
                &&& final(self).error() is None
                &&& final(self).phase() == graded_phase(old(self).panel().slots())
            },
    {
        match (self.phase, self.pending) {
            (RunPhase::Running, Pending::Diff) => {},
            _ => {
                return false;
            },
        }
        self.diff = Some(diff);
        self.settle_grading();
        true
    }

    /// Sets the phase that the state of the rubrics calls for.
    fn settle_grading(&mut self)
        requires
            old(self).context().wf(),
            old(self).panel().wf(),
        ensures
            final(self).same_work_as(*old(self)),
            final(self).error() == old(self).error(),
            final(self).pending() == old(self).pending(),
            final(self).phase() == graded_phase(old(self).panel().slots()),
    {
        self.phase = if !self.panel.is_complete() {
            RunPhase::AwaitingJudgment
        } else if self.panel.any_unavailable() {
            RunPhase::JudgeUnavailable
        } else {
            RunPhase::Graded
        };
    }

    /// Takes in what one grading call for the rubric at `index` gave.
    ///
    /// Refused with `NotAwaitingJudgment`, and nothing changed, in every
    /// phase but `AwaitingJudgment`: a rubric is graded only after the
    /// conversation is over and the diff is captured. Otherwise the panel
    /// takes the response in; once every rubric is resolved the run is
    /// `Graded`, or `JudgeUnavailable` where a rubric was given up.
    pub fn judge_answered(&mut self, index: usize, response: JudgeResponse) -> (taken: Result<
        (),
        JudgeError,
    >)
        requires
            old(self).wf(),
        ensures
            final(self).wf(),
            final(self).context() == old(self).context(),
            final(self).diff() == old(self).diff(),
            final(self).error() == old(self).error(),
            final(self).panel().rubrics() == old(self).panel().rubrics(),
            final(self).panel().attempt_limit() == old(self).panel().attempt_limit(),
            !(old(self).phase() is AwaitingJudgment) ==> {
                &&& taken == Err::<(), JudgeError>(JudgeError::NotAwaitingJudgment)
                &&& *final(self) == *old(self)
            },
            old(self).phase() is AwaitingJudgment ==> {
                let slots = old(self).panel().slots();
                if index >= slots.len() {
                    &&& taken == Err::<(), JudgeError>(JudgeError::UnknownAssertion)
                    &&& *final(self) == *old(self)
                } else if slots[index as int].verdict is Some {
                    &&& taken == Err::<(), JudgeError>(JudgeError::AlreadyResolved)
                    &&& *final(self) == *old(self)
                } else {
                    &&& taken is Ok
                    &&& final(self).panel().slots() == slots.update(
                        index as int,
                        slot_after(slots[index as int], response, old(self).panel().attempt_limit()),
                    )
                    &&& final(self).phase() == graded_phase(final(self).panel().slots())
                }
            },
    {
        match self.phase {
            RunPhase::AwaitingJudgment => {},
            _ => {
                return Err(JudgeError::NotAwaitingJudgment);
            },
        }
        match self.panel.record(index, response) {
            Ok(()) => {
                self.settle_grading();
                Ok(())
            },
            Err(e) => Err(e),
        }
    }

    /// Closes the run and hands out its report.
    ///
    /// The report holds the recorded outcomes as they stand, also after a
    /// failure or a cancellation, and one result per declared rubric: the
    /// judge's verdict where there is one, `NotEvaluated` where the judge
    /// was never asked. A graded run is reported as `Reported`; a run in
    /// any other phase is reported in that phase.
    pub fn into_report(self) -> (report: ExampleReport)
        requires
            self.wf(),
        ensures
            report.name == self.context().metadata().name,
            report.meta == self.context().metadata(),
            report.phase == reported_phase(self.phase()),
            report.error == self.error(),
            report.outcomes@ == self.context().recorder()@,
            report.judge_results@ == results_of(self.panel().rubrics(), self.panel().slots()),
            report.diff == self.diff(),
            report.meta.max_assertions matches Some(max) ==> report.outcomes@.len() <= max,
    {
        let judge_results = self.panel.results();
        let phase = match self.phase {
            RunPhase::Graded => RunPhase::Reported,
            other => other,
        };
        let (meta, _, recorder) = self.cx.into_parts();
        ExampleReport {
            name: meta.name.clone(),
            meta,
            phase,
            error: self.error,
            outcomes: recorder.into_outcomes(),
            judge_results,
            diff: self.diff,
        }
    }
}

/// In every state of a run the recorded outcomes are within the maximum
/// that the example declares, and no two of them share an id.
pub proof fn lemma_run_keeps_declared_budget(run: ExampleRun)
    requires
        run.wf(),
    ensures
        run.context().metadata().max_assertions matches Some(max)
            ==> run.context().recorder()@.len() <= max,
        ids_distinct(run.context().recorder()@),
{
}

/// A rubric was graded, or tried, only in a run whose agent completed a
/// turn and whose diff was captured.
pub proof fn lemma_judging_follows_completed_turn(run: ExampleRun)
    requires
        run.wf(),
        !untouched(run.panel().slots()),
    ensures
        judging_phase(run.phase()),
        run.context().turns() >= 1,
        run.diff() is Some,
        run.error() is None,
{
}

/// The judge is the next thing to be asked only in a run whose agent
/// completed a turn, whose diff is captured, and which no error aborted.
pub proof fn lemma_judge_is_asked_after_completed_turn(run: ExampleRun)
    requires
        run.wf(),
        action_for(run.phase(), run.pending()) is Judge,
    ensures
        run.context().turns() >= 1,
        run.diff() is Some,
        run.error() is None,
{
}

/// A run that an error aborted has no graded rubric: every rubric is
/// reported as not evaluated.
pub proof fn lemma_aborted_run_is_not_judged(run: ExampleRun, i: int)
    requires
        run.wf(),
        run.error() is Some,
        0 <= i < run.panel().rubrics().len(),
    ensures
        results_of(run.panel().rubrics(), run.panel().slots())[i].verdict
            == JudgeVerdict::NotEvaluated,
{
}

} // verus!

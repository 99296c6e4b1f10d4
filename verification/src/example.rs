//! Examples, their metadata, and the context in which one conversation runs.

use crate::assertions::{
    budget_spent, has_id, ids_distinct, AssertionOutcome, AssertionRecorder,
};
use crate::error::{AgentFailure, ExampleError};
use crate::thread::{assistant_messages, is_user_message, AgentReply, AgentThread, Role};
use vstd::prelude::*;
use vstd::std_specs::cmp::PartialEqSpec;
use vstd::string::*;

verus! {

/// Names the agent profile under which an example runs.
#[derive(Clone, Debug, PartialEq, Eq)]
pub struct AgentProfileId(pub String);

/// What an example declares about itself. Built once and never changed.
#[derive(Clone, Debug, PartialEq, Eq)]
pub struct ExampleMetadata {
    pub name: String,
    /// Where the repository that seeds the workspace is fetched from.
    pub url: String,
    /// The revision the workspace is pinned to.
    pub revision: String,
    /// The language server the example needs, if it needs one.
    pub language_server: Option<String>,
    /// The most exact checks the conversation may record.
    pub max_assertions: Option<usize>,
    pub profile_id: AgentProfileId,
    /// A serialised thread to start from in place of an empty one.
    pub existing_thread_json: Option<String>,
}

/// A rubric that the judge grades against the diff of a finished run.
#[derive(Clone, Debug, PartialEq, Eq)]
pub struct JudgeAssertion {
    pub id: String,
    pub description: String,
}

/// How a turn of the agent ended.
#[derive(Debug, PartialEq, Eq)]
pub enum TurnOutcome {
    /// The agent resolved every tool call and signalled completion.
    Completed(Vec<AgentReply>),
    /// The agent was stopped at its turn limit; the turn still counts as run.
    TurnLimitReached(Vec<AgentReply>),
    /// The agent aborted.
    Failed(AgentFailure),
}

/// What a conversation asks of its driver when it hands control back.
#[derive(Clone, Copy, Debug, PartialEq, Eq, Structural)]
pub enum ConversationStep {
    /// Run the agent to the end of its turn, then resume the conversation.
    AwaitAgent,
    /// The conversation is over.
    Finished,
}

/// The state of one example run as its conversation sees it: the thread,
/// the recorded outcomes and the number of turns the agent has completed.
#[derive(Debug)]
pub struct ExampleContext {
    meta: ExampleMetadata,
    thread: AgentThread,
    assertions: AssertionRecorder,
    turns_completed: usize,
}

/// The count of completed turns after one more turn; it stops at the
/// largest value the counter can hold.
pub open spec fn one_more_turn(turns: usize) -> usize {
    if turns < usize::MAX {
        (turns + 1) as usize
    } else {
        turns
    }
}

impl ExampleContext {
    /// The metadata the run was created with.
    pub closed spec fn metadata(&self) -> ExampleMetadata {
        self.meta
    }

    /// The thread of the run.
    pub closed spec fn thread(&self) -> AgentThread {
        self.thread
    }

    /// The recorder of the run.
    pub closed spec fn recorder(&self) -> AssertionRecorder {
        self.assertions
    }

    /// The number of turns that the agent has completed.
    pub closed spec fn turns(&self) -> usize {
        self.turns_completed
    }

    /// The thread and the recorder are well formed, and the recorder enforces
    /// the maximum that the metadata declares.
    pub open spec fn wf(&self) -> bool {
        &&& self.thread().wf()
        &&& self.recorder().wf()
        &&& self.recorder().limit() == self.metadata().max_assertions
    }

    /// The state `self` can be reached from `before` by a conversation
    /// alone: nothing recorded is lost or changed, only user messages are
    /// added, and no agent turn is made up.
    pub open spec fn continues(&self, before: ExampleContext) -> bool {
        &&& self.metadata() == before.metadata()
        &&& self.turns() == before.turns()
        &&& self.thread().closed() == before.thread().closed()
        &&& before.recorder()@.is_prefix_of(self.recorder()@)
        &&& before.thread()@.is_prefix_of(self.thread()@)
        &&& forall|i: int|
            before.thread()@.len() <= i < self.thread()@.len() ==> (#[trigger] self.thread()@[i]).role
                == Role::User
    }

    /// A context over `thread`, with nothing recorded and no turn run.
    pub fn new(meta: ExampleMetadata, thread: AgentThread) -> (cx: ExampleContext)
        requires
            thread.wf(),
        ensures
            cx.wf(),
            cx.metadata() == meta,
            cx.thread() == thread,
            cx.recorder()@ == Seq::<AssertionOutcome>::empty(),
            cx.turns() == 0,
    {
        let assertions = AssertionRecorder::new(meta.max_assertions);
        ExampleContext { meta, thread, assertions, turns_completed: 0 }
    }

    /// Takes the context apart: the metadata, the thread and the recorder.
    pub fn into_parts(self) -> (parts: (ExampleMetadata, AgentThread, AssertionRecorder))
        ensures
            parts.0 == self.metadata(),
            parts.1 == self.thread(),
            parts.2 == self.recorder(),
    {
        (self.meta, self.thread, self.assertions)
    }

    /// The metadata of the example being run.
    pub fn meta(&self) -> (meta: &ExampleMetadata)
        ensures
            *meta == self.metadata(),
    {
        &self.meta
    }

    /// The transcript, for inspection only.
    pub fn agent_thread(&self) -> (thread: &AgentThread)
        ensures
            *thread == self.thread(),
    {
        &self.thread
    }

    /// The outcomes recorded so far.
    pub fn assertions(&self) -> (recorder: &AssertionRecorder)
        ensures
            *recorder == self.recorder(),
    {
        &self.assertions
    }

    /// The number of turns that the agent has completed.
    pub fn turns_completed(&self) -> (turns: usize)
        ensures
            turns == self.turns(),
    {
        self.turns_completed
    }

    /// Appends a user turn to the conversation. A thread that has terminated
    /// refuses it with `ThreadClosed` and nothing changes.
    pub fn push_user_message(&mut self, text: &str) -> (pushed: Result<(), ExampleError>)
        requires
            old(self).wf(),
        ensures
            final(self).wf(),
            final(self).continues(*old(self)),
            final(self).recorder() == old(self).recorder(),
            old(self).thread().closed() ==> pushed == Err::<(), ExampleError>(
                ExampleError::ThreadClosed,
            ) && final(self).thread()@ == old(self).thread()@,
            !old(self).thread().closed() ==> {
                &&& pushed is Ok
                &&& final(self).thread()@.len() == old(self).thread()@.len() + 1
                &&& final(self).thread()@.drop_last() == old(self).thread()@
                &&& is_user_message(
                    final(self).thread()@.last(),
                    old(self).thread()@.len() as int,
                    text@,
                )
            },
    {
        match self.thread.push_user_message(String::from_str(text)) {
            Some(_) => Ok(()),
            None => Err(ExampleError::ThreadClosed),
        }
    }

    /// Takes in how the agent's turn ended.
    ///
    /// A turn that ran to its end, or to the turn limit, appends the agent's
    /// messages to the transcript and counts as completed. A turn that
    /// aborted fails with `Agent`, carrying the failure, and terminates the
    /// thread. On a thread that has already terminated nothing is taken in
    /// and the call fails with `ThreadClosed`. The recorded outcomes are
    /// never touched.
    pub fn run_to_end(&mut self, outcome: TurnOutcome) -> (ran: Result<(), ExampleError>)
        requires
            old(self).wf(),
        ensures
            final(self).wf(),
            final(self).metadata() == old(self).metadata(),
            final(self).recorder() == old(self).recorder(),
            old(self).thread().closed() ==> {
                &&& ran == Err::<(), ExampleError>(ExampleError::ThreadClosed)
                &&& *final(self) == *old(self)
            },
            !old(self).thread().closed() ==> match outcome {
                TurnOutcome::Completed(replies) | TurnOutcome::TurnLimitReached(replies) => {
                    &&& ran is Ok
                    &&& !final(self).thread().closed()
                    &&& final(self).thread()@ == old(self).thread()@ + assistant_messages(
                        old(self).thread()@.len() as int,
                        replies@,
                    )
                    &&& final(self).turns() == one_more_turn(old(self).turns())
                },
                TurnOutcome::Failed(failure) => {
                    &&& ran == Err::<(), ExampleError>(ExampleError::Agent(failure))
                    &&& final(self).thread().closed()
                    &&& final(self).thread()@ == old(self).thread()@
                    &&& final(self).turns() == old(self).turns()
                },
            },
    {
        if self.thread.is_closed() {
            return Err(ExampleError::ThreadClosed);
        }
        match outcome {
            TurnOutcome::Completed(replies) | TurnOutcome::TurnLimitReached(replies) => {
                self.thread.append_replies(replies);
                if self.turns_completed < usize::MAX {
                    self.turns_completed = self.turns_completed + 1;
                }
                Ok(())
            },
            TurnOutcome::Failed(failure) => {
                self.thread.close();
                Err(ExampleError::Agent(failure))
            },
        }
    }

    /// Records whether `actual` equals `expected`, under the id `id`.
    ///
    /// A failed comparison is an outcome, not an error. The call fails, and
    /// records nothing, when the declared maximum is already reached
    /// (`TooManyAssertions`) or when `id` was used before in this run
    /// (`DuplicateAssertionId`); the budget is looked at first.
    pub fn assert_eq<T: PartialEq>(&mut self, actual: T, expected: T, id: &str) -> (recorded: Result<
        (),
        ExampleError,
    >)
        requires
            old(self).wf(),
        ensures
            final(self).wf(),
            final(self).continues(*old(self)),
            final(self).thread() == old(self).thread(),
            budget_spent(old(self).recorder()@, old(self).recorder().limit()) ==> {
                &&& recorded == Err::<(), ExampleError>(
                    ExampleError::TooManyAssertions { max: old(self).recorder().limit().unwrap() },
                )
                &&& final(self).recorder()@ == old(self).recorder()@
            },
            !budget_spent(old(self).recorder()@, old(self).recorder().limit()) && has_id(
                old(self).recorder()@,
                id@,
            ) ==> {
                &&& recorded matches Err(ExampleError::DuplicateAssertionId(reused))
                &&& reused@ == id@
                &&& final(self).recorder()@ == old(self).recorder()@
            },
            !budget_spent(old(self).recorder()@, old(self).recorder().limit()) && !has_id(
                old(self).recorder()@,
                id@,
            ) ==> {
                &&& recorded is Ok
                &&& final(self).recorder()@.len() == old(self).recorder()@.len() + 1
                &&& final(self).recorder()@.drop_last() == old(self).recorder()@
                &&& final(self).recorder()@.last().id@ == id@
                &&& final(self).recorder()@.last().detail is None
                &&& T::obeys_eq_spec() ==> final(self).recorder()@.last().passed == actual.eq_spec(
                    &expected,
                )
            },
    {
        let passed = actual == expected;
        self.assertions.record(String::from_str(id), passed, None)
    }
}

/// In every state of a context the recorded outcomes are within the maximum
/// that the metadata declares, and no two of them share an id.
pub proof fn lemma_context_keeps_declared_budget(cx: ExampleContext)
    requires
        cx.wf(),
    ensures
        cx.metadata().max_assertions matches Some(max) ==> cx.recorder()@.len() <= max,
        ids_distinct(cx.recorder()@),
{
}

/// A unit under evaluation: its metadata, its scripted conversation, and
/// the rubrics to be judged once the conversation is over.
pub trait Example {
    /// The metadata of the example.
    fn meta(&self) -> ExampleMetadata;

    /// Runs the conversation up to its next suspension point.
    ///
    /// The driver calls this once at the start and once more after every
    /// completed agent turn, until it answers `Finished` or fails. A
    /// conversation may push user messages and record outcomes; it does not
    /// touch what is already there, and turns are only ever completed by
    /// the driver.
    fn conversation(&self, cx: &mut ExampleContext) -> (step: Result<
        ConversationStep,
        ExampleError,
    >)
        requires
            old(cx).wf(),
        ensures
            final(cx).wf(),
            final(cx).continues(*old(cx)),
    ;

    /// The rubrics to be judged. They say what should be judged and need no
    /// finished run.
    fn diff_assertions(&self) -> Vec<JudgeAssertion>;
}

} // verus!

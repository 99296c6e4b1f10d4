//! The conversation transcript and the tool-use records read from it.

use crate::value::StructuredValue;
use vstd::prelude::*;

verus! {

/// Identifies a message by its position in the transcript.
#[derive(Clone, Copy, Debug, PartialEq, Eq, Structural)]
pub struct MessageId(pub usize);

/// Who wrote a message.
#[derive(Clone, Copy, Debug, PartialEq, Eq, Structural)]
pub enum Role {
    User,
    Assistant,
}

/// One tool invocation as the agent issued it: the tool's name, verbatim,
/// and its input, undecoded.
#[derive(Debug, PartialEq, Eq)]
pub struct ToolCall {
    pub name: String,
    pub input: StructuredValue,
}

/// One message of the transcript, with the tool invocations the agent made
/// while writing it, in the order it made them.
#[derive(Debug, PartialEq, Eq)]
pub struct Message {
    pub id: MessageId,
    pub role: Role,
    pub text: String,
    pub tool_calls: Vec<ToolCall>,
}

/// What the agent wrote in one step of a turn.
#[derive(Debug, PartialEq, Eq)]
pub struct AgentReply {
    pub text: String,
    pub tool_calls: Vec<ToolCall>,
}

/// A tool invocation attributed to a message. Records are read out of the
/// transcript on every query and borrow from it; they are never stored.
#[derive(Clone, Copy, Debug, PartialEq, Eq)]
pub struct ToolUseRecord<'a> {
    pub message_id: MessageId,
    pub name: &'a String,
    pub input: &'a StructuredValue,
}

/// The record that stands for `call` when it is attributed to message `id`.
pub open spec fn record_of(id: MessageId, call: ToolCall) -> ToolUseRecord<'static> {
    ToolUseRecord { message_id: id, name: &call.name, input: &call.input }
}

/// The records of the message `id` in `messages`: one per tool invocation of
/// that message, in order; none where the transcript has no such message.
pub open spec fn tool_uses_of(messages: Seq<Message>, id: MessageId) -> Seq<ToolUseRecord<'static>> {
    if id.0 < messages.len() {
        let calls = messages[id.0 as int].tool_calls@;
        Seq::new(calls.len(), |j: int| record_of(id, calls[j]))
    } else {
        Seq::empty()
    }
}

/// The message that a reply becomes when it is appended at position `at`.
pub open spec fn assistant_message(at: int, reply: AgentReply) -> Message {
    Message {
        id: MessageId(at as usize),
        role: Role::Assistant,
        text: reply.text,
        tool_calls: reply.tool_calls,
    }
}

/// The messages that `replies` become when they are appended from position
/// `start` on, one message per reply, in order.
pub open spec fn assistant_messages(start: int, replies: Seq<AgentReply>) -> Seq<Message> {
    Seq::new(replies.len(), |i: int| assistant_message(start + i, replies[i]))
}

/// Whether `message` is the user's message `text`, placed at position `at`.
pub open spec fn is_user_message(message: Message, at: int, text: Seq<char>) -> bool {
    &&& message.id == MessageId(at as usize)
    &&& message.role == Role::User
    &&& message.text@ == text
    &&& message.tool_calls@.len() == 0
}

/// The transcript of one conversation with the agent.
#[derive(Debug)]
pub struct AgentThread {
    messages: Vec<Message>,
    closed: bool,
}

impl View for AgentThread {
    type V = Seq<Message>;

    closed spec fn view(&self) -> Seq<Message> {
        self.messages@
    }
}

impl AgentThread {
    /// Whether the thread has terminated and takes no further messages.
    pub closed spec fn closed(&self) -> bool {
        self.closed
    }

    /// Every message carries its own position as its id, and only the agent's
    /// messages carry tool invocations.
    pub open spec fn wf(&self) -> bool {
        forall|i: int|
            0 <= i < self@.len() ==> {
                &&& (#[trigger] self@[i]).id.0 == i
                &&& self@[i].role == Role::User ==> self@[i].tool_calls@.len() == 0
            }
    }

    /// An open thread without messages.
    pub fn new() -> (thread: AgentThread)
        ensures
            thread.wf(),
            thread@ == Seq::<Message>::empty(),
            !thread.closed(),
    {
        AgentThread { messages: Vec::new(), closed: false }
    }

    /// Whether the thread has terminated.
    pub fn is_closed(&self) -> (closed: bool)
        ensures
            closed == self.closed(),
    {
        self.closed
    }

    /// The messages, oldest first.
    pub fn messages(&self) -> (messages: &Vec<Message>)
        ensures
            messages@ == self@,
    {
        &self.messages
    }

    /// Terminates the thread. The transcript stays readable.
    pub fn close(&mut self)
        ensures
            final(self)@ == old(self)@,
            final(self).closed(),
            old(self).wf() ==> final(self).wf(),
    {
        self.closed = true;
    }

    /// Appends a user message and returns its id; a closed thread refuses it
    /// and stays as it was.
    pub fn push_user_message(&mut self, text: String) -> (pushed: Option<MessageId>)
        requires
            old(self).wf(),
        ensures
            final(self).wf(),
            final(self).closed() == old(self).closed(),
            old(self).closed() ==> pushed is None && final(self)@ == old(self)@,
            !old(self).closed() ==> {
                &&& pushed == Some(MessageId(old(self)@.len() as usize))
                &&& final(self)@.len() == old(self)@.len() + 1
                &&& final(self)@.drop_last() == old(self)@
                &&& is_user_message(final(self)@.last(), old(self)@.len() as int, text@)
            },
    {
        if self.closed {
            return None;
        }
        let id = MessageId(self.messages.len());
        self.messages.push(Message { id, role: Role::User, text, tool_calls: Vec::new() });
        Some(id)
    }

    /// Appends one message of the agent, with its tool invocations.
    pub fn push_assistant_message(&mut self, reply: AgentReply) -> (id: MessageId)
        requires
            old(self).wf(),
        ensures
            final(self).wf(),
            final(self).closed() == old(self).closed(),
            id == MessageId(old(self)@.len() as usize),
            final(self)@ == old(self)@.push(assistant_message(old(self)@.len() as int, reply)),
    {
        let id = MessageId(self.messages.len());
        self.messages.push(
            Message { id, role: Role::Assistant, text: reply.text, tool_calls: reply.tool_calls },
        );
        id
    }

    /// Appends what the agent wrote during one turn, one message per reply.
    pub fn append_replies(&mut self, replies: Vec<AgentReply>)
        requires
            old(self).wf(),
        ensures
            final(self).wf(),
            final(self).closed() == old(self).closed(),
            final(self)@ == old(self)@ + assistant_messages(old(self)@.len() as int, replies@),
    {
        let ghost all = replies@;
        let ghost start = self.messages@.len() as int;
        let mut rest = replies;
        while rest.len() > 0
            invariant
                self.wf(),
                self.closed() == old(self).closed(),
                rest@.len() <= all.len(),
                start == old(self)@.len(),
                rest@ == all.skip(all.len() - rest@.len()),
                self@ == old(self)@ + assistant_messages(start, all.take(all.len() - rest@.len())),
            decreases rest.len(),
        {
            let ghost done = all.len() - rest@.len();
            let reply = rest.remove(0);
            assert(reply == all[done]);
            assert(rest@ == all.skip(done + 1));
            let ghost before = self@;
            self.push_assistant_message(reply);
            assert(self@ == old(self)@ + assistant_messages(start, all.take(done + 1))) by {
                assert(before.len() == start + done);
                assert(assistant_messages(start, all.take(done + 1)) == assistant_messages(
                    start,
                    all.take(done),
                ).push(assistant_message(start + done, all[done])));
            }
        }
        assert(all.take(all.len() as int) == all);
    }

    /// The tool invocations attributed to the message `id`, in the order the
    /// agent issued them. A message without invocations, or an id that the
    /// transcript does not hold, gives an empty sequence.
    pub fn tool_uses_for_message(&self, id: MessageId) -> (records: Vec<ToolUseRecord<'_>>)
        ensures
            records@ == tool_uses_of(self@, id),
    {
        let mut records: Vec<ToolUseRecord<'_>> = Vec::new();
        if id.0 < self.messages.len() {
            let calls = &self.messages[id.0].tool_calls;
            let mut j: usize = 0;
            while j < calls.len()
                invariant
                    j <= calls.len(),
                    records@.len() == j,
                    forall|k: int| 0 <= k < j ==> records@[k] == record_of(id, calls@[k]),
                decreases calls.len() - j,
            {
                records.push(
                    ToolUseRecord { message_id: id, name: &calls[j].name, input: &calls[j].input },
                );
                j += 1;
            }
        }
        records
    }
}

/// Reading the tool uses of a message is repeatable: two readings of one
/// transcript give the same records in the same order.
pub proof fn lemma_extraction_is_repeatable(
    thread: AgentThread,
    id: MessageId,
    first: Seq<ToolUseRecord<'static>>,
    second: Seq<ToolUseRecord<'static>>,
)
    requires
        first == tool_uses_of(thread@, id),
        second == tool_uses_of(thread@, id),
    ensures
        first == second,
        first.len() == second.len(),
        forall|j: int|
            0 <= j < first.len() ==> (#[trigger] first[j]).message_id == second[j].message_id
                && first[j].name == second[j].name && first[j].input == second[j].input,
{
}

/// What is read for a message does not change when the transcript grows:
/// the records of a message that is there stay what they were.
pub proof fn lemma_extraction_is_stable(messages: Seq<Message>, more: Seq<Message>, id: MessageId)
    requires
        id.0 < messages.len(),
    ensures
        tool_uses_of(messages + more, id) == tool_uses_of(messages, id),
{
    assert((messages + more)[id.0 as int] == messages[id.0 as int]);
}

/// Every record read for a message carries that message's id, and the
/// name and input of the invocation at the same position.
pub proof fn lemma_records_follow_invocations(messages: Seq<Message>, id: MessageId, j: int)
    requires
        id.0 < messages.len(),
        0 <= j < messages[id.0 as int].tool_calls@.len(),
    ensures
        tool_uses_of(messages, id).len() == messages[id.0 as int].tool_calls@.len(),
        tool_uses_of(messages, id)[j].message_id == id,
        tool_uses_of(messages, id)[j].name == &messages[id.0 as int].tool_calls@[j].name,
        tool_uses_of(messages, id)[j].input == &messages[id.0 as int].tool_calls@[j].input,
{
}

/// A message without tool invocations yields no records.
pub proof fn lemma_no_tool_calls_no_records(messages: Seq<Message>, id: MessageId)
    requires
        id.0 < messages.len() ==> messages[id.0 as int].tool_calls@.len() == 0,
    ensures
        tool_uses_of(messages, id) == Seq::<ToolUseRecord<'static>>::empty(),
{
}

} // verus!

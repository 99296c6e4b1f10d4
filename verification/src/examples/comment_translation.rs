//! An example that asks the agent to translate the comments of three files
//! and checks that it edited them in place.

use crate::assertions::{budget_spent, has_id};
use crate::error::{DecodeError, ExampleError};
use crate::example::{
    AgentProfileId, ConversationStep, Example, ExampleContext, ExampleMetadata, JudgeAssertion,
};
use crate::thread::{is_user_message, AgentThread, Message, ToolCall};
use crate::tool_input::{decode_tool_input, decoded_edit_file, EditFileMode, ToolInput, EDIT_FILE_TOOL};
use vstd::prelude::*;
use vstd::string::*;

verus! {

/// What the user asks of the agent.
pub const PROMPT: &'static str =
    "\n            Edit the following files and translate all their comments to italian, in this exact order:\n\n            - font-kit/src/family.rs\n            - font-kit/src/canvas.rs\n            - font-kit/src/error.rs\n        ";

/// The id of the check that no file was created or overwritten.
pub const NO_CREATION_OR_OVERWRITE: &'static str = "no_creation_or_overwrite";

#[derive(Clone, Copy, Debug)]
pub struct CommentTranslation;

/// What one tool invocation adds to the count: one for an invocation of the
/// file-editing tool in any mode but `Edit`, nothing for any other
/// invocation, and the fault where the payload of the file-editing tool
/// does not decode.
pub open spec fn counted(call: ToolCall) -> Result<nat, DecodeError> {
    if call.name@ == EDIT_FILE_TOOL@ {
        match decoded_edit_file(call.input) {
            Err(e) => Err(e),
            Ok(input) => Ok(
                if input.mode == EditFileMode::Edit {
                    0nat
                } else {
                    1nat
                },
            ),
        }
    } else {
        Ok(0nat)
    }
}

/// The count over the first `upto` invocations of `calls`, or the first
/// fault met on the way.
pub open spec fn counted_in_calls(calls: Seq<ToolCall>, upto: int) -> Result<nat, DecodeError>
    decreases upto,
{
    if upto <= 0 {
        Ok(0nat)
    } else {
        match counted_in_calls(calls, upto - 1) {
            Err(e) => Err(e),
            Ok(n) => match counted(calls[upto - 1]) {
                Err(e) => Err(e),
                Ok(k) => Ok(n + k),
            },
        }
    }
}

/// The count over the first `upto` messages of `messages`, or the first
/// fault met on the way.
pub open spec fn counted_in_messages(messages: Seq<Message>, upto: int) -> Result<
    nat,
    DecodeError,
>
    decreases upto,
{
    if upto <= 0 {
        Ok(0nat)
    } else {
        match counted_in_messages(messages, upto - 1) {
            Err(e) => Err(e),
            Ok(n) => {
                let calls = messages[upto - 1].tool_calls@;
                match counted_in_calls(calls, calls.len() as int) {
                    Err(e) => Err(e),
                    Ok(k) => Ok(n + k),
                }
            },
        }
    }
}

/// A count as the machine holds it: exact up to the largest `usize`.
pub open spec fn clipped(n: nat) -> usize {
    if n <= usize::MAX {
        n as usize
    } else {
        usize::MAX
    }
}

/// Counts the invocations of the file-editing tool that created or
/// overwrote a file, over the whole transcript. A payload of that tool that
/// does not decode is an error: the first one met, going through the
/// messages and their invocations in order.
pub fn create_or_overwrite_count(thread: &AgentThread) -> (count: Result<usize, DecodeError>)
    requires
        thread.wf(),
    ensures
        count == match counted_in_messages(thread@, thread@.len() as int) {
            Ok(n) => Ok::<usize, DecodeError>(clipped(n)),
            Err(e) => Err(e),
        },
{
    let messages = thread.messages();
    let mut count: usize = 0;
    let ghost mut exact: nat = 0;
    let mut i: usize = 0;
    while i < messages.len()
        invariant
            thread.wf(),
            messages@ == thread@,
            i <= messages.len(),
            counted_in_messages(thread@, i as int) == Ok::<nat, DecodeError>(exact),
            count == clipped(exact),
        decreases messages.len() - i,
    {
        let records = thread.tool_uses_for_message(messages[i].id);
        let ghost calls = thread@[i as int].tool_calls@;
        let ghost before = exact;
        let ghost mut here: nat = 0;
        let mut j: usize = 0;
        while j < records.len()
            invariant
                j <= records.len(),
                records@.len() == calls.len(),
                forall|k: int|
                    0 <= k < records@.len() ==> (#[trigger] records@[k]).name == &calls[k].name
                        && records@[k].input == &calls[k].input,
                counted_in_calls(calls, j as int) == Ok::<nat, DecodeError>(here),
                exact == before + here,
                count == clipped(exact),
                counted_in_messages(thread@, i as int) == Ok::<nat, DecodeError>(before),
                calls == thread@[i as int].tool_calls@,
                i < thread@.len(),
            decreases records.len() - j,
        {
            assert(records@[j as int].name == &calls[j as int].name);
            match decode_tool_input(&records[j]) {
                Err(e) => {
                    proof {
                        lemma_fault_in_calls(calls, j + 1, calls.len() as int);
                        lemma_fault_in_messages(thread@, i + 1, thread@.len() as int);
                    }
                    return Err(e);
                },
                Ok(ToolInput::EditFile(input)) => {
                    if !input.mode.is_edit() {
                        if count < usize::MAX {
                            count = count + 1;
                        }
                        proof {
                            here = here + 1;
                            exact = exact + 1;
                        }
                    }
                },
                Ok(ToolInput::Opaque(_)) => {},
            }
            j += 1;
        }
        i += 1;
    }
    Ok(count)
}

/// A fault met among the first `at` invocations is the result for every
/// longer stretch.
proof fn lemma_fault_in_calls(calls: Seq<ToolCall>, at: int, upto: int)
    requires
        at <= upto,
        counted_in_calls(calls, at) is Err,
    ensures
        counted_in_calls(calls, upto) == counted_in_calls(calls, at),
    decreases upto - at,
{
    if at < upto {
        lemma_fault_in_calls(calls, at, upto - 1);
    }
}

/// A fault met among the first `at` messages is the result for every longer
/// stretch.
proof fn lemma_fault_in_messages(messages: Seq<Message>, at: int, upto: int)
    requires
        at <= upto,
        counted_in_messages(messages, at) is Err,
    ensures
        counted_in_messages(messages, upto) == counted_in_messages(messages, at),
    decreases upto - at,
{
    if at < upto {
        lemma_fault_in_messages(messages, at, upto - 1);
    }
}

impl Default for AgentProfileId {
    /// The profile under which the agent may write to the workspace.
    fn default() -> (id: AgentProfileId)
        ensures
            id.0@ == "write"@,
    {
        AgentProfileId(String::from_str("write"))
    }
}

impl Example for CommentTranslation {
    fn meta(&self) -> (meta: ExampleMetadata)
        ensures
            meta.name@ == "comment_translation"@,
            meta.url@ == "https://github.com/servo/font-kit.git"@,
            meta.revision@ == "504d084e29bce4f60614bc702e91af7f7d9e60ad"@,
            meta.language_server is None,
            meta.max_assertions == Some(1usize),
            meta.profile_id.0@ == "write"@,
            meta.existing_thread_json is None,
    {
        ExampleMetadata {
            name: String::from_str("comment_translation"),
            url: String::from_str("https://github.com/servo/font-kit.git"),
            revision: String::from_str("504d084e29bce4f60614bc702e91af7f7d9e60ad"),
            language_server: None,
            max_assertions: Some(1),
            profile_id: AgentProfileId::default(),
            existing_thread_json: None,
        }
    }

    /// Before the agent has run, sends the prompt and waits for the agent.
    /// Once it has run, counts the files it created or overwrote and
    /// records, under `no_creation_or_overwrite`, whether there were none.
    fn conversation(&self, cx: &mut ExampleContext) -> (step: Result<
        ConversationStep,
        ExampleError,
    >)
        ensures
            old(cx).turns() == 0 ==> {
                &&& final(cx).recorder() == old(cx).recorder()
                &&& if old(cx).thread().closed() {
                    &&& step == Err::<ConversationStep, ExampleError>(ExampleError::ThreadClosed)
                    &&& final(cx).thread()@ == old(cx).thread()@
                } else {
                    &&& step == Ok::<ConversationStep, ExampleError>(ConversationStep::AwaitAgent)
                    &&& final(cx).thread()@.len() == old(cx).thread()@.len() + 1
                    &&& final(cx).thread()@.drop_last() == old(cx).thread()@
                    &&& is_user_message(
                        final(cx).thread()@.last(),
                        old(cx).thread()@.len() as int,
                        PROMPT@,
                    )
                }
            },
            old(cx).turns() > 0 ==> {
                &&& final(cx).thread() == old(cx).thread()
                &&& match counted_in_messages(
                    old(cx).thread()@,
                    old(cx).thread()@.len() as int,
                ) {
                    Err(e) => {
                        &&& step == Err::<ConversationStep, ExampleError>(ExampleError::Decode(e))
                        &&& final(cx).recorder()@ == old(cx).recorder()@
                    },
                    Ok(n) => if budget_spent(old(cx).recorder()@, old(cx).recorder().limit()) {
                        &&& step == Err::<ConversationStep, ExampleError>(
                            ExampleError::TooManyAssertions {
                                max: old(cx).recorder().limit().unwrap(),
                            },
                        )
                        &&& final(cx).recorder()@ == old(cx).recorder()@
                    } else if has_id(old(cx).recorder()@, NO_CREATION_OR_OVERWRITE@) {
                        &&& step matches Err(ExampleError::DuplicateAssertionId(reused))
                        &&& reused@ == NO_CREATION_OR_OVERWRITE@
                        &&& final(cx).recorder()@ == old(cx).recorder()@
                    } else {
                        &&& step == Ok::<ConversationStep, ExampleError>(ConversationStep::Finished)
                        &&& final(cx).recorder()@.len() == old(cx).recorder()@.len() + 1
                        &&& final(cx).recorder()@.drop_last() == old(cx).recorder()@
                        &&& final(cx).recorder()@.last().id@ == NO_CREATION_OR_OVERWRITE@
                        &&& final(cx).recorder()@.last().passed == (n == 0)
                        &&& final(cx).recorder()@.last().detail is None
                    },
                }
            },
    {
        if cx.turns_completed() == 0 {
            match cx.push_user_message(PROMPT) {
                Ok(()) => Ok(ConversationStep::AwaitAgent),
                Err(e) => Err(e),
            }
        } else {
            let create_or_overwrite_count = match create_or_overwrite_count(cx.agent_thread()) {
                Ok(count) => count,
                Err(e) => {
                    return Err(ExampleError::Decode(e));
                },
            };
            match cx.assert_eq(create_or_overwrite_count, 0, NO_CREATION_OR_OVERWRITE) {
                Ok(()) => Ok(ConversationStep::Finished),
                Err(e) => Err(e),
            }
        }
    }

    fn diff_assertions(&self) -> (rubrics: Vec<JudgeAssertion>)
        ensures
            rubrics@.len() == 1,
            rubrics@[0].id@ == "comments_translated"@,
            rubrics@[0].description@
                == "- Only `family.rs`, `canvas.rs` and `error.rs` should have changed.\n- Their doc comments should have been all translated to Italian."@,
    {
        vec![
            JudgeAssertion {
                id: String::from_str("comments_translated"),
                description: String::from_str(
                    "- Only `family.rs`, `canvas.rs` and `error.rs` should have changed.\n- Their doc comments should have been all translated to Italian.",
                ),
            },
        ]
    }
}

} // verus!

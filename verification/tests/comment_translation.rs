use agent_eval::error::{AgentFailure, DecodeError, EditFileField, ExampleError};
use agent_eval::example::{ConversationStep, Example, ExampleContext, TurnOutcome};
use agent_eval::examples::comment_translation::{
    create_or_overwrite_count, CommentTranslation, NO_CREATION_OR_OVERWRITE, PROMPT,
};
use agent_eval::judge::{JudgeResponse, JudgeVerdict};
use agent_eval::run::{ExampleRun, ReportStatus, RunAction, RunPhase};
use agent_eval::thread::{AgentReply, AgentThread, Role, ToolCall};
use agent_eval::value::StructuredValue;

fn text(s: &str) -> StructuredValue {
    StructuredValue::Text(s.to_string())
}

fn edit_call(path: &str, mode: &str) -> ToolCall {
    ToolCall {
        name: "edit_file".to_string(),
        input: StructuredValue::Record(vec![
            ("display_description".to_string(), text("Translate comments to Italian")),
            ("path".to_string(), text(path)),
            ("mode".to_string(), text(mode)),
        ]),
    }
}

fn reply(tool_calls: Vec<ToolCall>) -> AgentReply {
    AgentReply { text: "Translating.".to_string(), tool_calls }
}

fn thread_with(replies: Vec<AgentReply>) -> AgentThread {
    let mut thread = AgentThread::new();
    thread.push_user_message("go".to_string());
    thread.append_replies(replies);
    thread
}

fn started_run() -> ExampleRun {
    let example = CommentTranslation;
    let mut run = ExampleRun::new(example.meta(), AgentThread::new(), example.diff_assertions(), 2);
    assert!(run.start());
    assert!(run.converse(&example));
    assert_eq!(run.next_action(), RunAction::RunAgent);
    run
}

#[test]
fn metadata_of_the_example() {
    let meta = CommentTranslation.meta();
    assert_eq!(meta.name, "comment_translation");
    assert_eq!(meta.url, "https://github.com/servo/font-kit.git");
    assert_eq!(meta.revision, "504d084e29bce4f60614bc702e91af7f7d9e60ad");
    assert_eq!(meta.language_server, None);
    assert_eq!(meta.max_assertions, Some(1));
    assert_eq!(meta.profile_id.0, "write");
    assert_eq!(meta.existing_thread_json, None);
}

#[test]
fn rubrics_of_the_example() {
    let rubrics = CommentTranslation.diff_assertions();
    assert_eq!(rubrics.len(), 1);
    assert_eq!(rubrics[0].id, "comments_translated");
    assert_eq!(
        rubrics[0].description,
        "- Only `family.rs`, `canvas.rs` and `error.rs` should have changed.\n- Their doc comments should have been all translated to Italian."
    );
}

#[test]
fn count_is_zero_for_in_place_edits() {
    let thread = thread_with(vec![
        reply(vec![edit_call("font-kit/src/family.rs", "edit")]),
        reply(vec![
            edit_call("font-kit/src/canvas.rs", "edit"),
            edit_call("font-kit/src/error.rs", "edit"),
        ]),
    ]);
    assert_eq!(create_or_overwrite_count(&thread), Ok(0));
}

#[test]
fn count_sees_creation_and_overwrite() {
    let thread = thread_with(vec![
        reply(vec![edit_call("a.rs", "edit"), edit_call("b.rs", "overwrite")]),
        reply(vec![]),
        reply(vec![edit_call("c.rs", "create"), edit_call("d.rs", "edit")]),
    ]);
    assert_eq!(create_or_overwrite_count(&thread), Ok(2));
}

#[test]
fn count_ignores_other_tools() {
    let thread = thread_with(vec![reply(vec![
        ToolCall { name: "read_file".to_string(), input: StructuredValue::Null },
        ToolCall { name: "unheard_of".to_string(), input: text("overwrite") },
        edit_call("a.rs", "edit"),
    ])]);
    assert_eq!(create_or_overwrite_count(&thread), Ok(0));
    assert_eq!(create_or_overwrite_count(&AgentThread::new()), Ok(0));
}

#[test]
fn count_fails_on_the_first_payload_that_does_not_decode() {
    let thread = thread_with(vec![
        reply(vec![edit_call("a.rs", "create")]),
        reply(vec![
            ToolCall { name: "edit_file".to_string(), input: StructuredValue::Null },
            ToolCall {
                name: "edit_file".to_string(),
                input: StructuredValue::Record(vec![]),
            },
        ]),
    ]);
    assert_eq!(create_or_overwrite_count(&thread), Err(DecodeError::NotARecord));
    let thread = thread_with(vec![reply(vec![edit_call("a.rs", "append")])]);
    assert_eq!(
        create_or_overwrite_count(&thread),
        Err(DecodeError::UnknownMode("append".to_string()))
    );
    let thread = thread_with(vec![reply(vec![ToolCall {
        name: "edit_file".to_string(),
        input: StructuredValue::Record(vec![("mode".to_string(), text("edit"))]),
    }])]);
    assert_eq!(
        create_or_overwrite_count(&thread),
        Err(DecodeError::MissingField(EditFileField::DisplayDescription))
    );
}

#[test]
fn conversation_first_sends_the_prompt() {
    let example = CommentTranslation;
    let mut cx = ExampleContext::new(example.meta(), AgentThread::new());
    assert!(matches!(example.conversation(&mut cx), Ok(ConversationStep::AwaitAgent)));
    let messages = cx.agent_thread().messages();
    assert_eq!(messages.len(), 1);
    assert_eq!(messages[0].role, Role::User);
    assert_eq!(messages[0].text, PROMPT);
    assert!(PROMPT.contains("- font-kit/src/family.rs\n"));
    assert!(PROMPT.contains("- font-kit/src/canvas.rs\n"));
    assert!(PROMPT.contains("- font-kit/src/error.rs\n"));
    assert_eq!(cx.assertions().run_count(), 0);
}

#[test]
fn conversation_on_closed_thread_fails() {
    let example = CommentTranslation;
    let mut thread = AgentThread::new();
    thread.close();
    let mut cx = ExampleContext::new(example.meta(), thread);
    assert!(matches!(example.conversation(&mut cx), Err(ExampleError::ThreadClosed)));
}

#[test]
fn three_in_place_edits_record_a_passing_outcome() {
    let example = CommentTranslation;
    let mut run = started_run();
    assert!(run.turn_ended(TurnOutcome::Completed(vec![
        reply(vec![edit_call("font-kit/src/family.rs", "edit")]),
        reply(vec![edit_call("font-kit/src/canvas.rs", "edit")]),
        reply(vec![edit_call("font-kit/src/error.rs", "edit")]),
    ])));
    assert_eq!(run.next_action(), RunAction::Converse);
    assert!(run.converse(&example));
    assert_eq!(run.current_phase(), RunPhase::Running);
    assert_eq!(run.next_action(), RunAction::CaptureDiff);
    let outcomes = run.example_context().assertions().outcomes();
    assert_eq!(outcomes.len(), 1);
    assert_eq!(outcomes[0].id, NO_CREATION_OR_OVERWRITE);
    assert_eq!(outcomes[0].id, "no_creation_or_overwrite");
    assert!(outcomes[0].passed);

    assert!(run.diff_captured("--- a/font-kit/src/family.rs".to_string()));
    assert_eq!(run.current_phase(), RunPhase::AwaitingJudgment);
    assert_eq!(run.next_action(), RunAction::Judge);
    assert_eq!(run.judge_panel().pending(), vec![0]);
    let answer = JudgeResponse::Graded { passed: true, rationale: "all Italian".to_string() };
    assert_eq!(run.judge_answered(0, answer), Ok(()));
    assert_eq!(run.current_phase(), RunPhase::Graded);
    assert_eq!(run.next_action(), RunAction::Report);

    let report = run.into_report();
    assert_eq!(report.name, "comment_translation");
    assert_eq!(report.phase, RunPhase::Reported);
    assert!(report.error.is_none());
    assert_eq!(report.outcomes.len(), 1);
    assert_eq!(report.judge_results.len(), 1);
    assert_eq!(report.judge_results[0].id, "comments_translated");
    assert!(matches!(report.judge_results[0].verdict, JudgeVerdict::Passed { .. }));
    assert_eq!(report.status(), ReportStatus::Passed);
}

#[test]
fn an_overwrite_among_edits_records_a_failing_outcome() {
    let example = CommentTranslation;
    let mut run = started_run();
    assert!(run.turn_ended(TurnOutcome::Completed(vec![reply(vec![
        edit_call("font-kit/src/family.rs", "edit"),
        edit_call("font-kit/src/canvas.rs", "overwrite"),
        edit_call("font-kit/src/error.rs", "edit"),
    ])])));
    assert_eq!(create_or_overwrite_count(run.example_context().agent_thread()), Ok(1));
    assert!(run.converse(&example));
    assert_eq!(run.next_action(), RunAction::CaptureDiff);
    let outcomes = run.example_context().assertions().outcomes();
    assert_eq!(outcomes.len(), 1);
    assert_eq!(outcomes[0].id, "no_creation_or_overwrite");
    assert!(!outcomes[0].passed);

    assert!(run.diff_captured(String::new()));
    let answer = JudgeResponse::Graded { passed: true, rationale: String::new() };
    assert_eq!(run.judge_answered(0, answer), Ok(()));
    let report = run.into_report();
    assert_eq!(report.phase, RunPhase::Reported);
    assert_eq!(report.status(), ReportStatus::AssertionFailed);
}

#[test]
fn model_error_fails_the_run_and_leaves_rubrics_indeterminate() {
    let mut run = started_run();
    let failure = AgentFailure::Model("context window exceeded".to_string());
    assert!(run.turn_ended(TurnOutcome::Failed(failure)));
    assert_eq!(run.current_phase(), RunPhase::AgentFailed);
    assert_eq!(run.next_action(), RunAction::Report);
    assert!(!run.converse(&CommentTranslation));
    assert!(!run.diff_captured("diff".to_string()));
    let answer = JudgeResponse::Graded { passed: false, rationale: "too late".to_string() };
    assert!(run.judge_answered(0, answer).is_err());

    let report = run.into_report();
    assert_eq!(report.phase, RunPhase::AgentFailed);
    assert!(matches!(
        &report.error,
        Some(ExampleError::Agent(AgentFailure::Model(m))) if m == "context window exceeded"
    ));
    assert_eq!(report.judge_results.len(), 1);
    assert_eq!(report.judge_results[0].id, "comments_translated");
    assert!(matches!(report.judge_results[0].verdict, JudgeVerdict::NotEvaluated));
    assert!(report.judge_results[0].verdict.is_indeterminate());
    let tally = report.judge_tally();
    assert_eq!((tally.passed, tally.failed, tally.indeterminate), (0, 0, 1));
    assert_eq!(report.status(), ReportStatus::RunErrored);
}

#[test]
fn payload_that_does_not_decode_aborts_the_run() {
    let example = CommentTranslation;
    let mut run = started_run();
    assert!(run.turn_ended(TurnOutcome::Completed(vec![reply(vec![ToolCall {
        name: "edit_file".to_string(),
        input: text("not a record"),
    }])])));
    assert!(run.converse(&example));
    assert_eq!(run.current_phase(), RunPhase::ConversationFailed);
    assert!(matches!(run.failure(), Some(ExampleError::Decode(DecodeError::NotARecord))));
    assert_eq!(run.example_context().assertions().run_count(), 0);
}

use agent_eval::thread::{AgentReply, AgentThread, MessageId, Role, ToolCall};
use agent_eval::value::StructuredValue;

fn call(name: &str, input: StructuredValue) -> ToolCall {
    ToolCall { name: name.to_string(), input }
}

#[test]
fn new_thread_is_open_and_empty() {
    let thread = AgentThread::new();
    assert!(!thread.is_closed());
    assert!(thread.messages().is_empty());
}

#[test]
fn messages_get_their_position_as_id() {
    let mut thread = AgentThread::new();
    assert_eq!(thread.push_user_message("hello".to_string()), Some(MessageId(0)));
    let id = thread.push_assistant_message(AgentReply { text: "hi".to_string(), tool_calls: vec![] });
    assert_eq!(id, MessageId(1));
    assert_eq!(thread.push_user_message("again".to_string()), Some(MessageId(2)));
    let messages = thread.messages();
    assert_eq!(messages.len(), 3);
    assert_eq!(messages[0].role, Role::User);
    assert_eq!(messages[0].text, "hello");
    assert_eq!(messages[1].role, Role::Assistant);
    assert_eq!(messages[1].id, MessageId(1));
    assert_eq!(messages[2].text, "again");
}

#[test]
fn closed_thread_refuses_user_message() {
    let mut thread = AgentThread::new();
    assert_eq!(thread.push_user_message("one".to_string()), Some(MessageId(0)));
    thread.close();
    assert!(thread.is_closed());
    assert_eq!(thread.push_user_message("two".to_string()), None);
    assert_eq!(thread.messages().len(), 1);
}

#[test]
fn tool_uses_come_out_in_issue_order() {
    let mut thread = AgentThread::new();
    thread.push_user_message("go".to_string());
    thread.push_assistant_message(AgentReply {
        text: "working".to_string(),
        tool_calls: vec![
            call("read_file", StructuredValue::Text("a".to_string())),
            call("edit_file", StructuredValue::Null),
            call("read_file", StructuredValue::Bool(true)),
        ],
    });
    let records = thread.tool_uses_for_message(MessageId(1));
    assert_eq!(records.len(), 3);
    assert_eq!(records[0].name, "read_file");
    assert_eq!(records[1].name, "edit_file");
    assert_eq!(records[2].name, "read_file");
    assert!(records.iter().all(|r| r.message_id == MessageId(1)));
    assert!(matches!(records[0].input, StructuredValue::Text(t) if t == "a"));
    assert!(matches!(records[1].input, StructuredValue::Null));
    assert!(matches!(records[2].input, StructuredValue::Bool(true)));
}

#[test]
fn message_without_tool_uses_yields_empty_sequence() {
    let mut thread = AgentThread::new();
    thread.push_user_message("go".to_string());
    thread.push_assistant_message(AgentReply { text: "done".to_string(), tool_calls: vec![] });
    assert!(thread.tool_uses_for_message(MessageId(0)).is_empty());
    assert!(thread.tool_uses_for_message(MessageId(1)).is_empty());
}

#[test]
fn unknown_message_id_yields_empty_sequence() {
    let mut thread = AgentThread::new();
    thread.push_user_message("go".to_string());
    assert!(thread.tool_uses_for_message(MessageId(7)).is_empty());
    assert!(thread.tool_uses_for_message(MessageId(usize::MAX)).is_empty());
}

#[test]
fn extraction_twice_gives_the_same_records() {
    let mut thread = AgentThread::new();
    thread.push_user_message("go".to_string());
    thread.push_assistant_message(AgentReply {
        text: String::new(),
        tool_calls: vec![
            call("grep", StructuredValue::Number("3".to_string())),
            call("mystery tool", StructuredValue::List(vec![StructuredValue::Null])),
        ],
    });
    let first = thread.tool_uses_for_message(MessageId(1));
    let second = thread.tool_uses_for_message(MessageId(1));
    assert_eq!(first.len(), second.len());
    for (a, b) in first.iter().zip(second.iter()) {
        assert_eq!(a.message_id, b.message_id);
        assert_eq!(a.name, b.name);
        assert!(std::ptr::eq(a.input, b.input));
    }
    assert_eq!(first[1].name, "mystery tool");
}

#[test]
fn replies_are_appended_one_message_each() {
    let mut thread = AgentThread::new();
    thread.push_user_message("go".to_string());
    thread.append_replies(vec![
        AgentReply { text: "first".to_string(), tool_calls: vec![call("a", StructuredValue::Null)] },
        AgentReply { text: "second".to_string(), tool_calls: vec![] },
        AgentReply { text: "third".to_string(), tool_calls: vec![call("b", StructuredValue::Null)] },
    ]);
    let messages = thread.messages();
    assert_eq!(messages.len(), 4);
    assert_eq!(messages[1].text, "first");
    assert_eq!(messages[2].text, "second");
    assert_eq!(messages[3].text, "third");
    assert_eq!(messages[3].id, MessageId(3));
    assert_eq!(thread.tool_uses_for_message(MessageId(1))[0].name, "a");
    assert!(thread.tool_uses_for_message(MessageId(2)).is_empty());
    assert_eq!(thread.tool_uses_for_message(MessageId(3))[0].name, "b");
}

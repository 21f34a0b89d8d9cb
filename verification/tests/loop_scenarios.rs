//! Scenario tests for the agent loop state machine.

use hive::agent_loop::{AgentLoop, Phase, DEFAULT_MAX_ITERATIONS};
use hive::message::{ArgObject, FunctionCall, Message, Role, ToolCall};
use hive::worker::fault_text;

fn call_with_text_args(name: &str, args: Vec<(&str, &str)>) -> ToolCall {
    let mut obj = ArgObject::new();
    for (k, v) in args {
        obj.push_text(k.to_string(), v.to_string());
    }
    ToolCall {
        function: FunctionCall {
            name: name.to_string(),
            arguments: obj,
        },
    }
}

#[test]
fn content_reply_ends_loop_after_one_call() {
    let mut l = AgentLoop::start("sys".to_string(), "hi".to_string(), DEFAULT_MAX_ITERATIONS);
    assert_eq!(l.current_phase(), Phase::AwaitingModel);
    assert_eq!(l.calls_made(), 0);
    l.on_reply(Message::assistant_text("Hello".to_string()));
    assert_eq!(l.current_phase(), Phase::Done);
    assert_eq!(l.calls_made(), 1);
    assert_eq!(l.result_text().as_str(), "Hello");
}

#[test]
fn reply_without_text_yields_empty_result() {
    let mut l = AgentLoop::start("sys".to_string(), "hi".to_string(), 5);
    l.on_reply(Message {
        role: Role::Assistant,
        content: None,
        tool_calls: None,
    });
    assert_eq!(l.current_phase(), Phase::Done);
    assert_eq!(l.result_text().as_str(), "");
}

#[test]
fn one_tool_call_then_content_takes_two_transport_calls() {
    let mut l = AgentLoop::start("sys".to_string(), "read it".to_string(), 5);
    l.on_reply(Message::assistant_calls(vec![call_with_text_args(
        "read_file",
        vec![("path", "a.txt")],
    )]));
    assert_eq!(l.current_phase(), Phase::HandlingTools);
    assert_eq!(l.pending_call().function.name.as_str(), "read_file");
    assert_eq!(
        l.pending_call().function.arguments.str_field("path").as_str(),
        "a.txt"
    );
    l.on_tool_result("the file's contents".to_string());
    assert_eq!(l.current_phase(), Phase::AwaitingModel);
    l.on_reply(Message::assistant_text("Done".to_string()));
    assert_eq!(l.current_phase(), Phase::Done);
    assert_eq!(l.calls_made(), 2);
    assert_eq!(l.result_text().as_str(), "Done");
    let conv = l.conversation();
    assert_eq!(conv.len(), 5);
    assert_eq!(conv[2].role, Role::Assistant);
    assert_eq!(conv[3].role, Role::Tool);
    assert_eq!(conv[3].content.as_deref(), Some("the file's contents"));
    assert_eq!(conv[4].role, Role::Assistant);
}

#[test]
fn endless_tool_calls_hit_the_ceiling_after_five_calls() {
    let mut l = AgentLoop::start("sys".to_string(), "go".to_string(), 5);
    for i in 0..5u32 {
        assert_eq!(l.current_phase(), Phase::AwaitingModel);
        l.on_reply(Message::assistant_calls(vec![call_with_text_args(
            "execute_command",
            vec![("command", "true")],
        )]));
        assert_eq!(l.current_phase(), Phase::HandlingTools);
        l.on_tool_result(format!("result {}", i));
    }
    assert_eq!(l.current_phase(), Phase::Done);
    assert_eq!(l.calls_made(), 5);
    assert_eq!(l.result_text().as_str(), "(Reached max attempts) result 4");
}

#[test]
fn ceiling_zero_closes_at_once_with_degraded_result() {
    let l = AgentLoop::start("sys".to_string(), "the ask".to_string(), 0);
    assert_eq!(l.current_phase(), Phase::Done);
    assert_eq!(l.calls_made(), 0);
    assert_eq!(l.result_text().as_str(), "(Reached max attempts) the ask");
}

#[test]
fn degraded_fallback_when_no_turn_carries_text() {
    let conversation = vec![Message {
        role: Role::Assistant,
        content: None,
        tool_calls: None,
    }];
    let l = AgentLoop::resume(conversation, 0);
    assert_eq!(l.current_phase(), Phase::Done);
    assert_eq!(
        l.result_text().as_str(),
        "Unable to complete task after maximum attempts."
    );
}

#[test]
fn tool_turns_keep_invocation_order_one_to_one() {
    let mut l = AgentLoop::start("sys".to_string(), "go".to_string(), 5);
    l.on_reply(Message::assistant_calls(vec![
        call_with_text_args("read_file", vec![("path", "a")]),
        call_with_text_args("read_file", vec![("path", "b")]),
        call_with_text_args("read_file", vec![("path", "c")]),
    ]));
    assert_eq!(l.pending_call().function.arguments.str_field("path").as_str(), "a");
    l.on_tool_result("first".to_string());
    assert_eq!(l.pending_call().function.arguments.str_field("path").as_str(), "b");
    l.on_tool_result("second".to_string());
    assert_eq!(l.pending_call().function.arguments.str_field("path").as_str(), "c");
    l.on_tool_result("third".to_string());
    assert_eq!(l.current_phase(), Phase::AwaitingModel);
    let conv = l.conversation();
    assert_eq!(conv.len(), 6);
    assert_eq!(conv[3].content.as_deref(), Some("first"));
    assert_eq!(conv[4].content.as_deref(), Some("second"));
    assert_eq!(conv[5].content.as_deref(), Some("third"));
    assert!(conv[3..6].iter().all(|m| m.role == Role::Tool));
}

#[test]
fn bulk_tool_results_append_in_order() {
    let mut l = AgentLoop::start("sys".to_string(), "go".to_string(), 5);
    l.on_reply(Message::assistant_calls(vec![
        call_with_text_args("a", vec![]),
        call_with_text_args("b", vec![]),
    ]));
    l.on_tool_results(vec!["one".to_string(), "two".to_string()]);
    assert_eq!(l.current_phase(), Phase::AwaitingModel);
    let conv = l.conversation();
    assert_eq!(conv[3].content.as_deref(), Some("one"));
    assert_eq!(conv[4].content.as_deref(), Some("two"));
}

#[test]
fn empty_invocation_list_returns_to_awaiting() {
    let mut l = AgentLoop::start("sys".to_string(), "go".to_string(), 5);
    l.on_reply(Message::assistant_calls(vec![]));
    assert_eq!(l.current_phase(), Phase::AwaitingModel);
    assert_eq!(l.calls_made(), 1);
}

#[test]
fn dispatch_fault_becomes_tool_turn_text() {
    let mut l = AgentLoop::start("sys".to_string(), "go".to_string(), 5);
    l.on_reply(Message::assistant_calls(vec![call_with_text_args(
        "no_such_tool",
        vec![],
    )]));
    let wrapped = fault_text("Unknown tool: no_such_tool");
    l.on_tool_result(wrapped.clone());
    let conv = l.conversation();
    assert_eq!(conv[3].role, Role::Tool);
    assert_eq!(conv[3].content.as_deref(), Some("Error: Unknown tool: no_such_tool"));
    assert!(conv[3].content.as_deref().unwrap().contains("Unknown tool: no_such_tool"));
}

#[test]
fn resume_keeps_a_running_conversation() {
    let conversation = vec![
        Message::system("prompt".to_string()),
        Message::user("first ask".to_string()),
        Message::assistant_text("first answer".to_string()),
        Message::user("second ask".to_string()),
    ];
    let mut l = AgentLoop::resume(conversation, 5);
    l.on_reply(Message::assistant_text("second answer".to_string()));
    let conv = l.into_conversation();
    assert_eq!(conv.len(), 5);
    assert_eq!(conv[4].content.as_deref(), Some("second answer"));
}

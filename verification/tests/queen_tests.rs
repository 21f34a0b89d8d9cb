//! Tests for the coordinator, the registry and the delegation bridge.

use hive::agent_loop::{AgentLoop, Phase, DEFAULT_MAX_ITERATIONS};
use hive::compose::reasoning_instructions;
use hive::message::{ArgObject, FunctionCall, Message, Role, ToolCall};
use hive::queen::{Queen, QueenAction};
use hive::registry::WorkerRegistry;
use hive::transport::{build_chat_request, TransportError};
use hive::worker::{Worker, WorkerFactory};

fn delegate_args(worker: &str, instruction: &str) -> ArgObject {
    let mut obj = ArgObject::new();
    obj.push_text("worker".to_string(), worker.to_string());
    obj.push_text("instruction".to_string(), instruction.to_string());
    obj
}

#[test]
fn the_registry_serves_workers_by_role() {
    let mut registry = WorkerRegistry::new();
    registry.register(WorkerFactory::FileManager.build(".".to_string()));
    registry.register(WorkerFactory::Shell.build(".".to_string()));
    assert_eq!(registry.count(), 2);
    assert!(registry.has_role("file_manager"));
    assert!(!registry.has_role("coder"));
    assert_eq!(registry.get("shell").map(|w| w.role()), Some("shell"));
    assert!(registry.get("absent").is_none());
    let roles: Vec<String> = registry.all_roles();
    assert_eq!(roles, vec!["file_manager".to_string(), "shell".to_string()]);
}

#[test]
fn a_coordinator_over_a_partial_registry_offers_only_its_roles() {
    let mut registry = WorkerRegistry::new();
    registry.register(WorkerFactory::Shell.build(".".to_string()));
    let queen = Queen::with_registry(registry, ".".to_string());
    let tools = queen.get_tools();
    let allowed: Vec<&str> = tools[0].function.parameters.properties[0]
        .allowed
        .as_ref()
        .unwrap()
        .iter()
        .map(|s| s.as_str())
        .collect();
    assert_eq!(allowed, vec!["shell"]);
    match queen.plan_tool_call("delegate_to_worker", &delegate_args("coder", "write code")) {
        QueenAction::Reply(t) => assert_eq!(t.as_str(), "Error: Worker 'coder' not found"),
        _ => panic!("expected an immediate reply"),
    }
}

#[test]
fn the_worker_list_names_each_worker_on_its_own_line() {
    let queen = Queen::new("/work".to_string());
    let list = queen.get_worker_list();
    let expected = "- **coder** [advanced]: Analyzes code, writes code, and provides technical solutions. Give full context and code.\n\
        - **file_manager** [simple]: Manages file system operations including reading, writing, and organizing files\n\
        - **shell** [simple]: Executes command line operations. Can run shell commands and return their output.";
    assert_eq!(list.as_str(), expected);
}

#[test]
fn the_coordinator_prompt_substitutes_workers_and_directory() {
    let queen = Queen::new("/work".to_string());
    let prompt = queen.build_system_prompt();
    assert!(prompt.contains("- **coder** [advanced]:"));
    assert!(prompt.contains("- Current Directory: /work\n"));
    assert!(!prompt.contains("{WORKERS}"));
    assert!(!prompt.contains("{DIRECTORY}"));
    assert!(prompt.ends_with(reasoning_instructions()));
}

#[test]
fn the_delegation_tool_offers_exactly_the_registered_roles() {
    let queen = Queen::new(".".to_string());
    let tools = queen.get_tools();
    assert_eq!(tools.len(), 1);
    let t = &tools[0];
    assert_eq!(t.tool_type.as_str(), "function");
    assert_eq!(t.function.name.as_str(), "delegate_to_worker");
    let worker_param = &t.function.parameters.properties[0];
    assert_eq!(worker_param.name.as_str(), "worker");
    let allowed: Vec<&str> = worker_param
        .allowed
        .as_ref()
        .unwrap()
        .iter()
        .map(|s| s.as_str())
        .collect();
    assert_eq!(allowed, vec!["coder", "file_manager", "shell"]);
    let required: Vec<&str> = t
        .function
        .parameters
        .required
        .iter()
        .map(|s| s.as_str())
        .collect();
    assert_eq!(required, vec!["worker", "instruction"]);
}

#[test]
fn a_known_role_is_delegated_with_its_instruction() {
    let queen = Queen::new(".".to_string());
    match queen.plan_tool_call("delegate_to_worker", &delegate_args("shell", "run ls")) {
        QueenAction::Delegate { role, instruction } => {
            assert_eq!(role.as_str(), "shell");
            assert_eq!(instruction.as_str(), "run ls");
        },
        _ => panic!("expected a delegation"),
    }
}

#[test]
fn an_unknown_role_replies_and_never_starts_a_loop() {
    let queen = Queen::new(".".to_string());
    match queen.plan_tool_call("delegate_to_worker", &delegate_args("gardener", "prune")) {
        QueenAction::Reply(t) => {
            assert_eq!(t.as_str(), "Error: Worker 'gardener' not found");
            assert!(t.contains("gardener"));
        },
        _ => panic!("expected an immediate reply"),
    }
}

#[test]
fn an_unknown_tool_replies_with_its_name() {
    let queen = Queen::new(".".to_string());
    match queen.plan_tool_call("fetch_weather", &ArgObject::new()) {
        QueenAction::Reply(t) => assert_eq!(t.as_str(), "Error: Unknown tool 'fetch_weather'"),
        _ => panic!("expected an immediate reply"),
    }
}

#[test]
fn delegation_runs_the_worker_loop_and_feeds_back_its_text() {
    let queen = Queen::new(".".to_string());
    let conversation = vec![
        Message::system(queen.build_system_prompt()),
        Message::user("What files are here?".to_string()),
    ];
    let mut queen_loop = AgentLoop::resume(conversation, DEFAULT_MAX_ITERATIONS);

    queen_loop.on_reply(Message::assistant_calls(vec![ToolCall {
        function: FunctionCall {
            name: "delegate_to_worker".to_string(),
            arguments: delegate_args("file_manager", "List directory at '.'"),
        },
    }]));
    assert_eq!(queen_loop.current_phase(), Phase::HandlingTools);

    let call = queen_loop.pending_call();
    let plan = queen.plan_tool_call(call.function.name.as_str(), &call.function.arguments);
    let tool_result = match plan {
        QueenAction::Delegate { role, instruction } => {
            let worker: &Worker = queen.registry().get(role.as_str()).unwrap();
            let mut worker_loop = AgentLoop::start(
                worker.build_system_prompt(),
                instruction,
                DEFAULT_MAX_ITERATIONS,
            );
            assert_eq!(worker_loop.current_phase(), Phase::AwaitingModel);
            worker_loop.on_reply(Message::assistant_text("[\"a.txt\",\"b.txt\"]".to_string()));
            assert_eq!(worker_loop.current_phase(), Phase::Done);
            worker_loop.result_text().clone()
        },
        QueenAction::Reply(t) => t,
    };
    queen_loop.on_tool_result(tool_result);

    let conv = queen_loop.conversation();
    let last = conv.last().unwrap();
    assert_eq!(last.role, Role::Tool);
    assert_eq!(last.content.as_deref(), Some("[\"a.txt\",\"b.txt\"]"));

    queen_loop.on_reply(Message::assistant_text("Two files: a.txt and b.txt.".to_string()));
    assert_eq!(queen_loop.current_phase(), Phase::Done);
    assert_eq!(queen_loop.result_text().as_str(), "Two files: a.txt and b.txt.");
}

#[test]
fn chat_requests_never_stream() {
    let messages = vec![Message::system("s".to_string()), Message::user("u".to_string())];
    let queen = Queen::new(".".to_string());
    let request = build_chat_request(queen.model(), &messages, Some(queen.get_tools()));
    assert!(!request.stream);
    assert_eq!(request.model.as_str(), "qwen2.5:32b-instruct-q5_K_M");
    assert_eq!(request.messages.len(), 2);
    assert!(request.tools.is_some());
    let bare = build_chat_request("m", &messages, None);
    assert!(bare.tools.is_none());
}

#[test]
fn transport_errors_describe_themselves() {
    assert_eq!(
        TransportError::Network("connection refused".to_string()).describe().as_str(),
        "transport error: connection refused"
    );
    assert_eq!(
        TransportError::Status(500).describe().as_str(),
        "backend returned status 500"
    );
    assert_eq!(
        TransportError::Malformed("missing message".to_string()).describe().as_str(),
        "malformed backend reply: missing message"
    );
}

//! Tests for the workers' catalogues, dispatch plans and result texts.

use hive::message::ArgObject;
use hive::worker::{fault_text, ToolPlan, Worker, WorkerFactory};
use hive::workers::coder::Coder;
use hive::workers::file_manager::{
    file_result_text, insert_line_text, FileAction, FileManager, FileOutcome,
};
use hive::workers::shell::{command_result_text, CommandOutcome, Shell};

fn text_args(pairs: Vec<(&str, &str)>) -> ArgObject {
    let mut obj = ArgObject::new();
    for (k, v) in pairs {
        obj.push_text(k.to_string(), v.to_string());
    }
    obj
}

#[test]
fn file_manager_catalogue_declares_all_eight_tools() {
    let w = FileManager::new(".".to_string());
    let tools = w.get_tools();
    let names: Vec<&str> = tools.iter().map(|t| t.function.name.as_str()).collect();
    assert_eq!(
        names,
        vec![
            "read_file",
            "write_file",
            "list_directory",
            "delete_file",
            "create_directory",
            "append_file",
            "insert_at_line",
            "replace_text",
        ]
    );
    assert!(tools.iter().all(|t| t.tool_type.as_str() == "function"));
    assert_eq!(
        tools[6]
            .function
            .parameters
            .required
            .iter()
            .map(|s| s.as_str())
            .collect::<Vec<_>>(),
        vec!["path", "line_number", "content"]
    );
    assert_eq!(tools[6].function.parameters.properties[1].ptype.as_str(), "integer");
}

#[test]
fn file_manager_plans_each_operation_from_its_arguments() {
    let w = FileManager::new(".".to_string());
    match w.plan_tool("read_file", &text_args(vec![("path", "a.txt")])) {
        ToolPlan::FileOp(FileAction::Read { path }) => assert_eq!(path.as_str(), "a.txt"),
        _ => panic!("wrong plan"),
    }
    match w.plan_tool("write_file", &text_args(vec![("path", "f"), ("content", "body")])) {
        ToolPlan::FileOp(FileAction::Write { path, content }) => {
            assert_eq!(path.as_str(), "f");
            assert_eq!(content.as_str(), "body");
        },
        _ => panic!("wrong plan"),
    }
    match w.plan_tool("list_directory", &text_args(vec![])) {
        ToolPlan::FileOp(FileAction::List { path }) => assert_eq!(path.as_str(), "."),
        _ => panic!("wrong plan"),
    }
    match w.plan_tool("replace_text", &text_args(vec![
        ("path", "f"),
        ("old_text", "x"),
        ("new_text", "y"),
    ])) {
        ToolPlan::FileOp(FileAction::ReplaceText { path, old_text, new_text }) => {
            assert_eq!(path.as_str(), "f");
            assert_eq!(old_text.as_str(), "x");
            assert_eq!(new_text.as_str(), "y");
        },
        _ => panic!("wrong plan"),
    }
    match w.plan_tool("mystery", &text_args(vec![])) {
        ToolPlan::Immediate(t) => assert_eq!(t.as_str(), "Unknown tool: mystery"),
        _ => panic!("wrong plan"),
    }
}

#[test]
fn insert_at_line_defaults_to_line_one() {
    let w = FileManager::new(".".to_string());
    match w.plan_tool("insert_at_line", &text_args(vec![("path", "f"), ("content", "c")])) {
        ToolPlan::FileOp(FileAction::InsertAtLine { line, .. }) => assert_eq!(line, 1),
        _ => panic!("wrong plan"),
    }
    let mut args = text_args(vec![("path", "f"), ("content", "c")]);
    args.push_number("line_number".to_string(), 3);
    match w.plan_tool("insert_at_line", &args) {
        ToolPlan::FileOp(FileAction::InsertAtLine { line, .. }) => assert_eq!(line, 3),
        _ => panic!("wrong plan"),
    }
}

#[test]
fn file_results_read_exactly_as_reported() {
    let read = FileAction::Read { path: "a.txt".to_string() };
    assert_eq!(
        file_result_text(&read, FileOutcome::Content("text".to_string())).as_str(),
        "text"
    );
    assert_eq!(
        file_result_text(&read, FileOutcome::OpenFailed("boom".to_string())).as_str(),
        "Error reading file: boom"
    );
    let write = FileAction::Write { path: "a.txt".to_string(), content: "x".to_string() };
    assert_eq!(
        file_result_text(&write, FileOutcome::Done).as_str(),
        "Successfully wrote to a.txt"
    );
    assert_eq!(
        file_result_text(&write, FileOutcome::WriteFailed("full".to_string())).as_str(),
        "Error writing file: full"
    );
    let insert = FileAction::InsertAtLine {
        path: "f.txt".to_string(),
        line: 3,
        content: "c".to_string(),
    };
    assert_eq!(
        file_result_text(&insert, FileOutcome::Done).as_str(),
        "Successfully inserted at line 3 in f.txt"
    );
    let replace = FileAction::ReplaceText {
        path: "f.txt".to_string(),
        old_text: "x".to_string(),
        new_text: "y".to_string(),
    };
    assert_eq!(
        file_result_text(&replace, FileOutcome::NotFound).as_str(),
        "Error: old_text not found in f.txt"
    );
    let append = FileAction::Append { path: "f".to_string(), content: "c".to_string() };
    assert_eq!(
        file_result_text(&append, FileOutcome::OpenFailed("denied".to_string())).as_str(),
        "Error opening file: denied"
    );
    assert_eq!(
        file_result_text(&append, FileOutcome::WriteFailed("disk".to_string())).as_str(),
        "Error writing to file: disk"
    );
}

#[test]
fn listing_is_encoded_as_a_json_array() {
    let list = FileAction::List { path: ".".to_string() };
    assert_eq!(
        file_result_text(&list, FileOutcome::Names(vec!["a".to_string(), "b".to_string()]))
            .as_str(),
        "[\"a\",\"b\"]"
    );
    assert_eq!(file_result_text(&list, FileOutcome::Names(vec![])).as_str(), "[]");
    assert_eq!(
        file_result_text(&list, FileOutcome::Names(vec!["a\"b".to_string()])).as_str(),
        "[\"a\\\"b\"]"
    );
}

#[test]
fn inserting_a_line_rewrites_the_file_text() {
    assert_eq!(insert_line_text("l1\nl2", 1, "new").as_str(), "new\nl1\nl2");
    assert_eq!(insert_line_text("l1\nl2", 0, "new").as_str(), "new\nl1\nl2");
    assert_eq!(insert_line_text("l1\nl2", 2, "new").as_str(), "l1\nnew\nl2");
    assert_eq!(insert_line_text("l1\nl2", 99, "new").as_str(), "l1\nl2\nnew");
    assert_eq!(insert_line_text("", 1, "new").as_str(), "new");
    assert_eq!(insert_line_text("a\r\nb", 2, "new").as_str(), "a\nnew\nb");
}

#[test]
fn shell_results_read_exactly_as_reported() {
    assert_eq!(
        command_result_text(CommandOutcome::LaunchFailed("no shell".to_string())).as_str(),
        "Error executing command: no shell"
    );
    assert_eq!(
        command_result_text(CommandOutcome::Completed {
            success: true,
            exit_code: Some(0),
            stdout: "listing\n".to_string(),
            stderr: String::new(),
        })
        .as_str(),
        "listing\n"
    );
    assert_eq!(
        command_result_text(CommandOutcome::Completed {
            success: true,
            exit_code: Some(0),
            stdout: String::new(),
            stderr: String::new(),
        })
        .as_str(),
        "Command executed successfully (no output)"
    );
    assert_eq!(
        command_result_text(CommandOutcome::Completed {
            success: false,
            exit_code: Some(2),
            stdout: "out".to_string(),
            stderr: "err".to_string(),
        })
        .as_str(),
        "Command failed (exit code: Some(2))\nstdout: out\nstderr: err"
    );
    assert_eq!(
        command_result_text(CommandOutcome::Completed {
            success: false,
            exit_code: None,
            stdout: String::new(),
            stderr: "killed".to_string(),
        })
        .as_str(),
        "Command failed (exit code: None)\nstdout: \nstderr: killed"
    );
}

#[test]
fn shell_plans_only_its_one_tool() {
    let w = Shell::new("/work".to_string());
    match w.plan_tool("execute_command", &text_args(vec![("command", "ls -l")])) {
        ToolPlan::Command(c) => assert_eq!(c.as_str(), "ls -l"),
        _ => panic!("wrong plan"),
    }
    match w.plan_tool("read_file", &text_args(vec![])) {
        ToolPlan::Immediate(t) => assert_eq!(t.as_str(), "Unknown tool: read_file"),
        _ => panic!("wrong plan"),
    }
}

#[test]
fn a_worker_without_tools_faults_on_every_invocation() {
    let w = Worker::Coder(Coder::new());
    match w.plan_tool("read_file", &text_args(vec![])) {
        ToolPlan::Fault(m) => {
            assert_eq!(m.as_str(), "Unknown tool: read_file");
            assert_eq!(fault_text(m.as_str()).as_str(), "Error: Unknown tool: read_file");
        },
        _ => panic!("wrong plan"),
    }
    assert!(w.get_tools().is_empty());
}

#[test]
fn duplicated_arguments_read_the_same() {
    let mut args = text_args(vec![("path", "a.txt")]);
    args.push_number("line_number".to_string(), 7);
    let copy = args.duplicate();
    assert_eq!(copy.str_field("path").as_str(), "a.txt");
    assert_eq!(copy.number_field("line_number", 1), 7);
    assert_eq!(copy.str_field("absent").as_str(), "");
    assert_eq!(copy.str_field_or("absent", ".").as_str(), ".");
}

#[test]
fn factories_build_their_worker_kinds() {
    let ws: Vec<Worker> = WorkerFactory::all()
        .into_iter()
        .map(|f| f.build("/work".to_string()))
        .collect();
    let roles: Vec<&str> = ws.iter().map(|w| w.role()).collect();
    assert_eq!(roles, vec!["coder", "file_manager", "shell"]);
    let kinds: Vec<&str> = ws.iter().map(|w| w.worker_type()).collect();
    assert_eq!(kinds, vec!["advanced", "simple", "simple"]);
}

#[test]
fn worker_prompts_substitute_their_directory() {
    let w = FileManager::new("/data".to_string());
    let prompt = w.build_system_prompt();
    assert!(prompt.contains("# Current Directory\n/data\n"));
    assert!(prompt.contains("- **read_file**: Read the contents of a file"));
    assert!(!prompt.contains("{TOOLS}"));
    assert!(!prompt.contains("{DIRECTORY}"));
    assert!(prompt.ends_with("Reason about the error and adapt your approach."));
}

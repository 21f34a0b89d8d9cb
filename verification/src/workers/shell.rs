//! The shell worker: one tool that runs a command line, and the exact text
//! reported for what the command produced.

use vstd::prelude::*;
use vstd::string::*;
use crate::compose::{compose, composed, Placeholder};
use crate::message::{str_arg, ArgObject};
use crate::strings::{signed_dec_digits, i32_to_string};
use crate::tool::{fn_tool, one_string_schema, string_prop, ParamSchemaV, Tool, ToolV};
use crate::worker::{unknown_tool_message, unknown_tool_text, ToolPlan, ToolPlanV};

verus! {

/// What running a command yielded, as the caller reports it.
pub enum CommandOutcome {
    /// The command could not be started; the cause in words.
    LaunchFailed(String),
    /// The command ran to completion.
    Completed { success: bool, exit_code: Option<i32>, stdout: String, stderr: String },
}

/// Ghost image of a command's outcome.
pub ghost enum CommandOutcomeV {
    LaunchFailed(Seq<char>),
    Completed { success: bool, exit_code: Option<i32>, stdout: Seq<char>, stderr: Seq<char> },
}

impl View for CommandOutcome {
    type V = CommandOutcomeV;

    open spec fn view(&self) -> CommandOutcomeV {
        match self {
            CommandOutcome::LaunchFailed(e) => CommandOutcomeV::LaunchFailed(e@),
            CommandOutcome::Completed { success, exit_code, stdout, stderr } =>
                CommandOutcomeV::Completed {
                success: *success,
                exit_code: *exit_code,
                stdout: stdout@,
                stderr: stderr@,
            },
        }
    }
}

/// How an optional exit code reads in the failure report.
pub open spec fn exit_code_text(code: Option<i32>) -> Seq<char> {
    match code {
        Some(v) => "Some("@ + signed_dec_digits(v as int) + ")"@,
        None => "None"@,
    }
}

/// The exact text reported for a command's outcome: the captured output on
/// success, a fixed note when a successful command printed nothing, and a
/// report naming the exit code and both streams on failure.
pub open spec fn command_result(outcome: CommandOutcomeV) -> Seq<char> {
    match outcome {
        CommandOutcomeV::LaunchFailed(e) => "Error executing command: "@ + e,
        CommandOutcomeV::Completed { success, exit_code, stdout, stderr } => if success {
            if stdout.len() == 0 {
                "Command executed successfully (no output)"@
            } else {
                stdout
            }
        } else {
            "Command failed (exit code: "@ + exit_code_text(exit_code) + ")\nstdout: "@ + stdout
                + "\nstderr: "@ + stderr
        },
    }
}

/// Builds the text reported for a command's outcome.
pub fn command_result_text(outcome: CommandOutcome) -> (r: String)
    ensures
        r@ == command_result(outcome@),
{
    match outcome {
        CommandOutcome::LaunchFailed(e) => {
            let mut s: String = String::from_str("Error executing command: ");
            s.append(e.as_str());
            s
        },
        CommandOutcome::Completed { success, exit_code, stdout, stderr } => {
            if success {
                if stdout.unicode_len() == 0 {
                    proof {
                        assert(stdout@ =~= Seq::<char>::empty());
                    }
                    String::from_str("Command executed successfully (no output)")
                } else {
                    stdout
                }
            } else {
                let mut s: String = String::from_str("Command failed (exit code: ");
                match exit_code {
                    Some(v) => {
                        s.append("Some(");
                        s.append(i32_to_string(v).as_str());
                        s.append(")");
                    },
                    None => {
                        s.append("None");
                    },
                }
                s.append(")\nstdout: ");
                s.append(stdout.as_str());
                s.append("\nstderr: ");
                s.append(stderr.as_str());
                s
            }
        },
    }
}

/// The dispatch plan of the shell worker for one invocation: the command to
/// execute, or the unknown-tool text.
pub open spec fn shell_plan(name: Seq<char>, args: Seq<(Seq<char>, crate::message::ArgScalarV)>) -> ToolPlanV {
    if name == "execute_command"@ {
        ToolPlanV::Command(str_arg(args, "command"@))
    } else {
        ToolPlanV::Immediate(unknown_tool_text(name))
    }
}

/// The catalogue of the shell worker.
pub open spec fn shell_tools() -> Seq<ToolV> {
    seq![
        fn_tool(
            "execute_command"@,
            "Execute a shell command and return its output"@,
            ParamSchemaV {
                properties: seq![string_prop("command"@, "The command to execute"@)],
                required: seq!["command"@],
            },
        ),
    ]
}

/// The shell worker's prompt template.
pub open spec fn shell_prompt() -> Seq<char> {
    "You are a shell command executor. You receive instructions and execute shell commands.\n\n# Working Directory\n{DIRECTORY}\n\n# Rules\n1. Parse the instruction to identify what command to run\n2. Execute the appropriate command\n3. Return ONLY the raw output - no commentary\n\n# Available Tools\n{TOOLS}\n\n# Response Format\nReturn the command output directly. Do not add interpretation or suggestions.\nJust the data."@
}

/// The worker that executes command lines in one working directory.
pub struct Shell {
    working_dir: String,
}

impl View for Shell {
    type V = Seq<char>;

    closed spec fn view(&self) -> Seq<char> {
        self.working_dir@
    }
}

impl Shell {
    /// A shell worker rooted at `working_dir`.
    pub fn new(working_dir: String) -> (w: Shell)
        ensures
            w@ == working_dir@,
    {
        Shell { working_dir }
    }

    /// The directory commands run in.
    pub fn working_dir(&self) -> (r: &String)
        ensures
            r@ == self@,
    {
        &self.working_dir
    }

    /// The unique role identifier of this worker.
    pub fn role(&self) -> (r: &'static str)
        ensures
            r@ == "shell"@,
    {
        "shell"
    }

    /// The worker's description, as listed to the coordinator.
    pub fn description(&self) -> (r: &'static str)
        ensures
            r@ == "Executes command line operations. Can run shell commands and return their output."@,
    {
        "Executes command line operations. Can run shell commands and return their output."
    }

    /// The capability class of this worker.
    pub fn worker_type(&self) -> (r: &'static str)
        ensures
            r@ == "simple"@,
    {
        "simple"
    }

    /// The chat endpoint this worker's conversations go to.
    pub fn ollama_url(&self) -> (r: &'static str)
        ensures
            r@ == "http://localhost:11434/api/chat"@,
    {
        "http://localhost:11434/api/chat"
    }

    /// The model this worker converses with.
    pub fn model(&self) -> (r: &'static str)
        ensures
            r@ == "qwen2.5:7b"@,
    {
        "qwen2.5:7b"
    }

    /// The worker's prompt template.
    pub fn system_prompt(&self) -> (r: &'static str)
        ensures
            r@ == shell_prompt(),
    {
        "You are a shell command executor. You receive instructions and execute shell commands.\n\n# Working Directory\n{DIRECTORY}\n\n# Rules\n1. Parse the instruction to identify what command to run\n2. Execute the appropriate command\n3. Return ONLY the raw output - no commentary\n\n# Available Tools\n{TOOLS}\n\n# Response Format\nReturn the command output directly. Do not add interpretation or suggestions.\nJust the data."
    }

    /// The placeholder values substituted into this worker's template.
    pub fn custom_placeholders(&self) -> (v: Vec<Placeholder>)
        ensures
            v.deep_view() =~= seq![("{DIRECTORY}"@, self@)],
    {
        let mut v: Vec<Placeholder> = Vec::new();
        v.push(Placeholder::new("{DIRECTORY}", self.working_dir.clone()));
        v
    }

    /// The worker's tool catalogue.
    pub fn get_tools(&self) -> (r: Vec<Tool>)
        ensures
            r.deep_view() =~= shell_tools(),
    {
        let mut tools: Vec<Tool> = Vec::new();
        tools.push(
            Tool::function_tool(
                "execute_command",
                "Execute a shell command and return its output",
                one_string_schema("command", "The command to execute"),
            ),
        );
        tools
    }

    /// The composed system prompt of this worker.
    pub fn build_system_prompt(&self) -> (r: String)
        ensures
            r@ == composed(shell_prompt(), seq![("{DIRECTORY}"@, self@)], shell_tools()),
    {
        let placeholders = self.custom_placeholders();
        let tools = self.get_tools();
        compose(self.system_prompt(), &placeholders, &tools)
    }

    /// The dispatch plan for one invocation of this worker's catalogue.
    pub fn plan_tool(&self, name: &str, args: &ArgObject) -> (p: ToolPlan)
        ensures
            p@ == shell_plan(name@, args@),
    {
        if crate::strings::str_eq(name, "execute_command") {
            ToolPlan::Command(args.str_field("command"))
        } else {
            ToolPlan::Immediate(unknown_tool_message(name))
        }
    }
}

} // verus!

//! Workers: subordinate agents invoked only through delegation, and the
//! dispatch plans their catalogues produce.
//!
//! Dispatch never raises: looking up an unknown tool or failing inside a
//! tool becomes descriptive text in a `tool` turn, so the model can see the
//! failure and adapt.  Only the plan — which operation to run with which
//! arguments — is decided here; the side effect itself is performed by the
//! caller, which hands the loop the result text.

use vstd::prelude::*;
use vstd::string::*;
use crate::compose::composed;
use crate::message::{ArgObject, ArgScalarV};
use crate::strings::{contains_seq, occurs_at};
use crate::tool::{Tool, ToolV};
use crate::workers::coder::Coder;
use crate::workers::file_manager::{file_plan, FileAction, FileActionV, FileManager};
use crate::workers::shell::{shell_plan, Shell};

verus! {

/// What dispatching one tool invocation asks of the caller.
pub enum ToolPlan {
    /// The result text is already decided; no outside work is needed.
    Immediate(String),
    /// Dispatch failed before any work could start; the loop wraps this
    /// description as `Error: <cause>` in the tool turn.
    Fault(String),
    /// A file operation to perform against the worker's directory.
    FileOp(FileAction),
    /// A shell command to execute in the worker's working directory.
    Command(String),
}

/// Ghost image of a dispatch plan.
pub ghost enum ToolPlanV {
    Immediate(Seq<char>),
    Fault(Seq<char>),
    FileOp(FileActionV),
    Command(Seq<char>),
}

impl View for ToolPlan {
    type V = ToolPlanV;

    open spec fn view(&self) -> ToolPlanV {
        match self {
            ToolPlan::Immediate(t) => ToolPlanV::Immediate(t@),
            ToolPlan::Fault(t) => ToolPlanV::Fault(t@),
            ToolPlan::FileOp(a) => ToolPlanV::FileOp(a@),
            ToolPlan::Command(c) => ToolPlanV::Command(c@),
        }
    }
}

/// The text standing for a request to run a tool the catalogue does not
/// hold.
pub open spec fn unknown_tool_text(name: Seq<char>) -> Seq<char> {
    "Unknown tool: "@ + name
}

/// Builds the unknown-tool text.
pub fn unknown_tool_message(name: &str) -> (r: String)
    ensures
        r@ == unknown_tool_text(name@),
{
    let mut s: String = String::from_str("Unknown tool: ");
    s.append(name);
    s
}

/// How a dispatch-level fault reads once wrapped for the conversation.
pub open spec fn fault_wrapped(message: Seq<char>) -> Seq<char> {
    "Error: "@ + message
}

/// Wraps a dispatch-level fault as the text of a `tool` turn, in place of
/// aborting the loop.
pub fn fault_text(message: &str) -> (r: String)
    ensures
        r@ == fault_wrapped(message@),
{
    let mut s: String = String::from_str("Error: ");
    s.append(message);
    s
}

/// Law: a dispatch fault is absorbed into conversational text that carries
/// the fault description verbatim; the loop goes on rather than raising.
pub proof fn lemma_fault_text_contains(message: Seq<char>)
    ensures
        contains_seq(fault_wrapped(message), message),
{
    reveal_strlit("Error: ");
    assert(occurs_at(fault_wrapped(message), message, 7)) by {
        assert(fault_wrapped(message).subrange(7, 7 + message.len() as int) =~= message);
    }
}

/// A subordinate agent, one of the known kinds.
pub enum Worker {
    Coder(Coder),
    FileManager(FileManager),
    Shell(Shell),
}

/// Ghost image of a worker: its kind, with the directory it is rooted at
/// where it has one.
pub ghost enum WorkerV {
    Coder,
    FileManager(Seq<char>),
    Shell(Seq<char>),
}

impl View for Worker {
    type V = WorkerV;

    open spec fn view(&self) -> WorkerV {
        match self {
            Worker::Coder(_) => WorkerV::Coder,
            Worker::FileManager(w) => WorkerV::FileManager(w@),
            Worker::Shell(w) => WorkerV::Shell(w@),
        }
    }
}

impl DeepView for Worker {
    type V = WorkerV;

    open spec fn deep_view(&self) -> WorkerV {
        self@
    }
}

/// The unique role identifier of a worker.
pub open spec fn role_of(w: WorkerV) -> Seq<char> {
    match w {
        WorkerV::Coder => "coder"@,
        WorkerV::FileManager(_) => "file_manager"@,
        WorkerV::Shell(_) => "shell"@,
    }
}

/// The description of a worker, as listed to the coordinator.
pub open spec fn description_of(w: WorkerV) -> Seq<char> {
    match w {
        WorkerV::Coder => "Analyzes code, writes code, and provides technical solutions. Give full context and code."@,
        WorkerV::FileManager(_) => "Manages file system operations including reading, writing, and organizing files"@,
        WorkerV::Shell(_) => "Executes command line operations. Can run shell commands and return their output."@,
    }
}

/// The capability class of a worker.
pub open spec fn worker_type_of(w: WorkerV) -> Seq<char> {
    match w {
        WorkerV::Coder => "advanced"@,
        WorkerV::FileManager(_) => "simple"@,
        WorkerV::Shell(_) => "simple"@,
    }
}

/// The chat endpoint of a worker.
pub open spec fn endpoint_of(w: WorkerV) -> Seq<char> {
    match w {
        WorkerV::Coder => "http://localhost:11435/api/chat"@,
        WorkerV::FileManager(_) => "http://localhost:11434/api/chat"@,
        WorkerV::Shell(_) => "http://localhost:11434/api/chat"@,
    }
}

/// The model a worker converses with.
pub open spec fn model_of(w: WorkerV) -> Seq<char> {
    match w {
        WorkerV::Coder => "qwen2.5-coder:32b"@,
        WorkerV::FileManager(_) => "qwen2.5:7b"@,
        WorkerV::Shell(_) => "qwen2.5:7b"@,
    }
}

/// The tool catalogue of a worker.
pub open spec fn tools_of(w: WorkerV) -> Seq<ToolV> {
    match w {
        WorkerV::Coder => Seq::<ToolV>::empty(),
        WorkerV::FileManager(_) => crate::workers::file_manager::file_manager_tools(),
        WorkerV::Shell(_) => crate::workers::shell::shell_tools(),
    }
}

/// The composed system prompt of a worker.
pub open spec fn prompt_of(w: WorkerV) -> Seq<char> {
    match w {
        WorkerV::Coder => composed(
            crate::workers::coder::coder_prompt(),
            Seq::<(Seq<char>, Seq<char>)>::empty(),
            Seq::<ToolV>::empty(),
        ),
        WorkerV::FileManager(d) => composed(
            crate::workers::file_manager::file_manager_prompt(),
            seq![("{DIRECTORY}"@, d)],
            crate::workers::file_manager::file_manager_tools(),
        ),
        WorkerV::Shell(d) => composed(
            crate::workers::shell::shell_prompt(),
            seq![("{DIRECTORY}"@, d)],
            crate::workers::shell::shell_tools(),
        ),
    }
}

/// The dispatch plan of a worker for one invocation.  A worker with no
/// catalogue faults on every invocation; the loop wraps the fault and goes
/// on.
pub open spec fn worker_plan(w: WorkerV, name: Seq<char>, args: Seq<(Seq<char>, ArgScalarV)>) -> ToolPlanV {
    match w {
        WorkerV::Coder => ToolPlanV::Fault(unknown_tool_text(name)),
        WorkerV::FileManager(_) => file_plan(name, args),
        WorkerV::Shell(_) => shell_plan(name, args),
    }
}

impl Worker {
    /// The unique role identifier of this worker.
    pub fn role(&self) -> (r: &'static str)
        ensures
            r@ == role_of(self@),
    {
        match self {
            Worker::Coder(w) => w.role(),
            Worker::FileManager(w) => w.role(),
            Worker::Shell(w) => w.role(),
        }
    }

    /// The worker's description, as listed to the coordinator.
    pub fn description(&self) -> (r: &'static str)
        ensures
            r@ == description_of(self@),
    {
        match self {
            Worker::Coder(w) => w.description(),
            Worker::FileManager(w) => w.description(),
            Worker::Shell(w) => w.description(),
        }
    }

    /// The capability class of this worker.
    pub fn worker_type(&self) -> (r: &'static str)
        ensures
            r@ == worker_type_of(self@),
    {
        match self {
            Worker::Coder(w) => w.worker_type(),
            Worker::FileManager(w) => w.worker_type(),
            Worker::Shell(w) => w.worker_type(),
        }
    }

    /// The chat endpoint this worker's conversations go to.
    pub fn ollama_url(&self) -> (r: &'static str)
        ensures
            r@ == endpoint_of(self@),
    {
        match self {
            Worker::Coder(w) => w.ollama_url(),
            Worker::FileManager(w) => w.ollama_url(),
            Worker::Shell(w) => w.ollama_url(),
        }
    }

    /// The model this worker converses with.
    pub fn model(&self) -> (r: &'static str)
        ensures
            r@ == model_of(self@),
    {
        match self {
            Worker::Coder(w) => w.model(),
            Worker::FileManager(w) => w.model(),
            Worker::Shell(w) => w.model(),
        }
    }

    /// The worker's tool catalogue.
    pub fn get_tools(&self) -> (r: Vec<Tool>)
        ensures
            r.deep_view() =~= tools_of(self@),
    {
        match self {
            Worker::Coder(w) => w.get_tools(),
            Worker::FileManager(w) => w.get_tools(),
            Worker::Shell(w) => w.get_tools(),
        }
    }

    /// The composed system prompt of this worker, seeding each fresh
    /// delegated conversation.
    pub fn build_system_prompt(&self) -> (r: String)
        ensures
            r@ == prompt_of(self@),
    {
        match self {
            Worker::Coder(w) => w.build_system_prompt(),
            Worker::FileManager(w) => w.build_system_prompt(),
            Worker::Shell(w) => w.build_system_prompt(),
        }
    }

    /// The dispatch plan for one invocation against this worker's
    /// catalogue.
    pub fn plan_tool(&self, name: &str, args: &ArgObject) -> (p: ToolPlan)
        ensures
            p@ == worker_plan(self@, name@, args@),
    {
        match self {
            Worker::Coder(_) => ToolPlan::Fault(unknown_tool_message(name)),
            Worker::FileManager(w) => w.plan_tool(name, args),
            Worker::Shell(w) => w.plan_tool(name, args),
        }
    }
}

/// A constructor for one worker kind, applied at process start to fill the
/// registry.
#[derive(Clone, Copy, PartialEq, Eq, Structural, Debug)]
pub enum WorkerFactory {
    Coder,
    FileManager,
    Shell,
}

/// The worker a factory builds when rooted at `directory`.
pub open spec fn built_worker(f: WorkerFactory, directory: Seq<char>) -> WorkerV {
    match f {
        WorkerFactory::Coder => WorkerV::Coder,
        WorkerFactory::FileManager => WorkerV::FileManager(directory),
        WorkerFactory::Shell => WorkerV::Shell(directory),
    }
}

impl WorkerFactory {
    /// Builds the worker, rooting it at `directory` where its kind works in
    /// a directory.
    pub fn build(&self, directory: String) -> (w: Worker)
        ensures
            w@ == built_worker(*self, directory@),
    {
        match self {
            WorkerFactory::Coder => Worker::Coder(Coder::new()),
            WorkerFactory::FileManager => Worker::FileManager(FileManager::new(directory)),
            WorkerFactory::Shell => Worker::Shell(Shell::new(directory)),
        }
    }

    /// Every known worker factory, in registration order.
    pub fn all() -> (v: Vec<WorkerFactory>)
        ensures
            v@ =~= seq![WorkerFactory::Coder, WorkerFactory::FileManager, WorkerFactory::Shell],
    {
        let mut v: Vec<WorkerFactory> = Vec::new();
        v.push(WorkerFactory::Coder);
        v.push(WorkerFactory::FileManager);
        v.push(WorkerFactory::Shell);
        v
    }
}

} // verus!

//! The coordinating agent: the only agent that converses with the user.  It
//! holds the worker registry, lists the workers in its prompt, exposes one
//! delegation tool whose allowed targets are generated from the registry,
//! and decides for each invocation whether to delegate or to reply with a
//! descriptive error.

use vstd::prelude::*;
use vstd::string::*;
use crate::compose::{compose, composed, Placeholder};
use crate::message::{str_arg, ArgObject, ArgScalarV};
use crate::registry::{lookup_role, registry_wf, roles_of, WorkerRegistry};
use crate::strings::{contains_seq, joined_lines, occurs_at, str_eq};
use crate::tool::{fn_tool, string_prop, ParamProperty, ParamPropertyV, ParamSchema, ParamSchemaV,
    Tool, ToolV};
use crate::worker::{description_of, role_of, worker_type_of, WorkerFactory, WorkerV};

verus! {

/// The coordinator's prompt template.
pub open spec fn queen_template() -> Seq<char> {
    "You are the Queen of Hive. You are the ONLY agent that communicates with the user.\n\n# Environment\n- Operating System: Linux\n- Current Directory: {DIRECTORY}\n- Workers share this directory. Use RELATIVE paths (e.g., \"src/main.rs\", \".\" for current dir) not absolute paths.\n\n# Core Architecture\n- YOU talk to the user. Workers NEVER talk to the user.\n- Workers are TOOLS, not assistants. They execute operations and return raw data.\n- YOU do all thinking, analysis, and synthesis. Workers just fetch and execute.\n\n# Worker Types\nWorkers are categorized by complexity:\n\n**simple**: Low-capability workers using small models. Give them atomic, single-operation instructions. They cannot reason, plan, or handle ambiguity. Be explicit and precise.\n- Example: \"Read the file at 'src/main.rs'\" (not \"Look at main.rs and tell me what's important\")\n\n**advanced**: High-capability workers using larger models. They can handle complex, multi-step tasks and understand context. Provide full context and let them determine the approach.\n- Example: \"Refactor this function to use async/await, ensuring error handling is preserved\"\n\n# How to Use Workers\nFor **simple** workers: Give specific, atomic operations. They return raw results - YOU do the analysis.\n\nWRONG: \"Give me an overview of the project directory\"\nRIGHT: \"List the directory at '.'\" \u{2192} then YOU analyze the listing\n\nWRONG: \"Explain what's in this file\"\nRIGHT: \"Read the file at 'src/main.rs'\" \u{2192} then YOU explain it\n\nFor **advanced** workers: Provide full context and goals. They can handle reasoning and multi-step tasks.\n\n# Available Workers\n{WORKERS}\n\n# Your Workflow\n1. Receive user request\n2. Break it down into operations appropriate for each worker's type\n3. For simple workers: request raw data one operation at a time\n4. For advanced workers: provide full context and let them work\n5. Analyze and synthesize results yourself\n6. Respond to the user with your analysis\n\n# Example\nUser: \"What does this project do?\"\nYou should:\n1. delegate_to_worker(\"file_manager\", \"List directory at '.'\")\n2. delegate_to_worker(\"file_manager\", \"Read file 'Cargo.toml'\")\n3. delegate_to_worker(\"file_manager\", \"Read file 'src/main.rs'\")\n4. Analyze all the raw data yourself\n5. Give the user YOUR summary\n\n# Communication\n- Be direct and helpful to the user\n- Do your own thinking - don't outsource analysis to workers\n- If you need more data, request it from workers\n- Workers return data; you return answers\n\n# Remember\n- You have full access to read the user's directory and files\n"@
}

/// The line standing for one worker in the coordinator's worker listing.
pub open spec fn worker_line(w: WorkerV) -> Seq<char> {
    "- **"@ + role_of(w) + "** ["@ + worker_type_of(w) + "]: "@ + description_of(w)
}

/// The worker listing put in place of the worker-list placeholder: one line
/// per registered worker, in registration order.
pub open spec fn worker_list(ws: Seq<WorkerV>) -> Seq<char> {
    joined_lines(ws.map_values(|w: WorkerV| worker_line(w)))
}

/// The coordinator's composed prompt, built by the one composer every
/// agent's prompt goes through: the worker listing and the directory in
/// place of their placeholders, and the fixed iteration-budget block
/// appended.
pub open spec fn queen_prompt(ws: Seq<WorkerV>, directory: Seq<char>) -> Seq<char> {
    composed(
        queen_template(),
        seq![("{WORKERS}"@, worker_list(ws)), ("{DIRECTORY}"@, directory)],
        Seq::<ToolV>::empty(),
    )
}

/// The delegation tool as declared to the backend: its allowed targets are
/// exactly the registered roles at the time the catalogue is built.
pub open spec fn delegate_tool(roles: Seq<Seq<char>>) -> ToolV {
    fn_tool(
        "delegate_to_worker"@,
        "Delegate a task to a specialized worker"@,
        ParamSchemaV {
            properties: seq![
                ParamPropertyV {
                    name: "worker"@,
                    ptype: "string"@,
                    description: "The worker to delegate to"@,
                    allowed: Some(roles),
                },
                string_prop("instruction"@, "Natural language instruction for the worker"@),
            ],
            required: seq!["worker"@, "instruction"@],
        },
    )
}

/// The reply text for a tool the coordinator does not expose.
pub open spec fn unknown_tool_reply(name: Seq<char>) -> Seq<char> {
    "Error: Unknown tool '"@ + name + "'"@
}

/// The reply text for a delegation target that is not registered.
pub open spec fn unknown_worker_reply(role: Seq<char>) -> Seq<char> {
    "Error: Worker '"@ + role + "' not found"@
}

/// Builds the reply text for a delegation target that is not registered.
pub fn unknown_worker_message(role: &str) -> (r: String)
    ensures
        r@ == unknown_worker_reply(role@),
{
    let mut t: String = String::from_str("Error: Worker '");
    t.append(role);
    t.append("' not found");
    t
}

/// What the coordinator decides for one tool invocation.
pub enum QueenAction {
    /// Run the named worker's whole loop on the instruction; its final text
    /// becomes the tool result.
    Delegate { role: String, instruction: String },
    /// The result text is already decided; no worker loop starts.
    Reply(String),
}

/// Ghost image of the coordinator's decision.
pub ghost enum QueenActionV {
    Delegate { role: Seq<char>, instruction: Seq<char> },
    Reply(Seq<char>),
}

impl View for QueenAction {
    type V = QueenActionV;

    open spec fn view(&self) -> QueenActionV {
        match self {
            QueenAction::Delegate { role, instruction } => QueenActionV::Delegate {
                role: role@,
                instruction: instruction@,
            },
            QueenAction::Reply(t) => QueenActionV::Reply(t@),
        }
    }
}

/// The coordinator's decision for one invocation: delegate when the tool is
/// the delegation tool and the named role is registered; otherwise reply
/// with the descriptive error naming what was asked.
pub open spec fn queen_plan(
    ws: Seq<WorkerV>,
    name: Seq<char>,
    args: Seq<(Seq<char>, ArgScalarV)>,
) -> QueenActionV {
    if name != "delegate_to_worker"@ {
        QueenActionV::Reply(unknown_tool_reply(name))
    } else {
        let role = str_arg(args, "worker"@);
        let instruction = str_arg(args, "instruction"@);
        if lookup_role(ws, role) is Some {
            QueenActionV::Delegate { role, instruction }
        } else {
            QueenActionV::Reply(unknown_worker_reply(role))
        }
    }
}

/// Ghost image of the coordinator.
pub ghost struct QueenV {
    pub workers: Seq<WorkerV>,
    pub directory: Seq<char>,
}

/// The coordinating agent.
pub struct Queen {
    registry: WorkerRegistry,
    directory: String,
}

impl View for Queen {
    type V = QueenV;

    closed spec fn view(&self) -> QueenV {
        QueenV { workers: self.registry@, directory: self.directory@ }
    }
}

impl Queen {
    /// A coordinator over a registry built by explicit registration.
    pub fn with_registry(registry: WorkerRegistry, directory: String) -> (q: Queen)
        requires
            registry_wf(registry@),
        ensures
            q@.workers == registry@,
            q@.directory == directory@,
            registry_wf(q@.workers),
    {
        Queen { registry, directory }
    }

    /// A coordinator over every known worker kind, each rooted at
    /// `directory`, registered in a fixed order at construction.
    pub fn new(directory: String) -> (q: Queen)
        ensures
            q@.directory == directory@,
            q@.workers =~= seq![
                WorkerV::Coder,
                WorkerV::FileManager(directory@),
                WorkerV::Shell(directory@),
            ],
            registry_wf(q@.workers),
    {
        let mut registry = WorkerRegistry::new();
        proof {
            reveal_strlit("coder");
            reveal_strlit("file_manager");
            reveal_strlit("shell");
            assert("coder"@[0] == 'c');
            assert("shell"@[0] == 's');
            assert("coder"@ != "file_manager"@);
            assert("coder"@ != "shell"@);
            assert("file_manager"@ != "shell"@);
        }
        registry.register(WorkerFactory::Coder.build(directory.clone()));
        proof {
            assert(registry@ =~= seq![WorkerV::Coder]);
            assert(registry@.drop_first() =~= Seq::<WorkerV>::empty());
            assert(lookup_role(registry@.drop_first(), "file_manager"@) is None);
            assert(lookup_role(registry@, "file_manager"@) is None);
        }
        registry.register(WorkerFactory::FileManager.build(directory.clone()));
        proof {
            assert(registry@ =~= seq![WorkerV::Coder, WorkerV::FileManager(directory@)]);
            assert(registry@.drop_first() =~= seq![WorkerV::FileManager(directory@)]);
            assert(registry@.drop_first().drop_first() =~= Seq::<WorkerV>::empty());
            assert(lookup_role(registry@.drop_first().drop_first(), "shell"@) is None);
            assert(lookup_role(registry@.drop_first(), "shell"@) is None);
            assert(lookup_role(registry@, "shell"@) is None);
        }
        registry.register(WorkerFactory::Shell.build(directory.clone()));
        Queen { registry, directory }
    }

    /// The registry of this coordinator's workers.
    pub fn registry(&self) -> (r: &WorkerRegistry)
        ensures
            r@ == self@.workers,
    {
        &self.registry
    }

    /// The directory named in the coordinator's prompt.
    pub fn directory(&self) -> (r: &String)
        ensures
            r@ == self@.directory,
    {
        &self.directory
    }

    /// The coordinator's prompt template.
    pub fn system_prompt(&self) -> (r: &'static str)
        ensures
            r@ == queen_template(),
    {
        "You are the Queen of Hive. You are the ONLY agent that communicates with the user.\n\n# Environment\n- Operating System: Linux\n- Current Directory: {DIRECTORY}\n- Workers share this directory. Use RELATIVE paths (e.g., \"src/main.rs\", \".\" for current dir) not absolute paths.\n\n# Core Architecture\n- YOU talk to the user. Workers NEVER talk to the user.\n- Workers are TOOLS, not assistants. They execute operations and return raw data.\n- YOU do all thinking, analysis, and synthesis. Workers just fetch and execute.\n\n# Worker Types\nWorkers are categorized by complexity:\n\n**simple**: Low-capability workers using small models. Give them atomic, single-operation instructions. They cannot reason, plan, or handle ambiguity. Be explicit and precise.\n- Example: \"Read the file at 'src/main.rs'\" (not \"Look at main.rs and tell me what's important\")\n\n**advanced**: High-capability workers using larger models. They can handle complex, multi-step tasks and understand context. Provide full context and let them determine the approach.\n- Example: \"Refactor this function to use async/await, ensuring error handling is preserved\"\n\n# How to Use Workers\nFor **simple** workers: Give specific, atomic operations. They return raw results - YOU do the analysis.\n\nWRONG: \"Give me an overview of the project directory\"\nRIGHT: \"List the directory at '.'\" \u{2192} then YOU analyze the listing\n\nWRONG: \"Explain what's in this file\"\nRIGHT: \"Read the file at 'src/main.rs'\" \u{2192} then YOU explain it\n\nFor **advanced** workers: Provide full context and goals. They can handle reasoning and multi-step tasks.\n\n# Available Workers\n{WORKERS}\n\n# Your Workflow\n1. Receive user request\n2. Break it down into operations appropriate for each worker's type\n3. For simple workers: request raw data one operation at a time\n4. For advanced workers: provide full context and let them work\n5. Analyze and synthesize results yourself\n6. Respond to the user with your analysis\n\n# Example\nUser: \"What does this project do?\"\nYou should:\n1. delegate_to_worker(\"file_manager\", \"List directory at '.'\")\n2. delegate_to_worker(\"file_manager\", \"Read file 'Cargo.toml'\")\n3. delegate_to_worker(\"file_manager\", \"Read file 'src/main.rs'\")\n4. Analyze all the raw data yourself\n5. Give the user YOUR summary\n\n# Communication\n- Be direct and helpful to the user\n- Do your own thinking - don't outsource analysis to workers\n- If you need more data, request it from workers\n- Workers return data; you return answers\n\n# Remember\n- You have full access to read the user's directory and files\n"
    }

    /// The chat endpoint the coordinator's conversations go to.
    pub fn ollama_url(&self) -> (r: &'static str)
        ensures
            r@ == "http://localhost:11435/api/chat"@,
    {
        "http://localhost:11435/api/chat"
    }

    /// The model the coordinator converses with.
    pub fn model(&self) -> (r: &'static str)
        ensures
            r@ == "qwen2.5:32b-instruct-q5_K_M"@,
    {
        "qwen2.5:32b-instruct-q5_K_M"
    }

    /// The listing of registered workers, one line each, in registration
    /// order.
    pub fn get_worker_list(&self) -> (r: String)
        ensures
            r@ == worker_list(self@.workers),
    {
        let workers = self.registry.workers();
        let n: usize = workers.len();
        let mut lines: Vec<String> = Vec::new();
        let mut i: usize = 0;
        while i < n
            invariant
                n == workers@.len(),
                workers.deep_view() == self@.workers,
                i <= n,
                lines@.len() == i,
                forall|j: int| 0 <= j < i ==> lines@[j]@ == worker_line(self@.workers[j]),
            decreases n - i,
        {
            let w = &workers[i];
            let mut line: String = String::from_str("- **");
            line.append(w.role());
            line.append("** [");
            line.append(w.worker_type());
            line.append("]: ");
            line.append(w.description());
            lines.push(line);
            i = i + 1;
        }
        let r = crate::strings::join_lines(&lines);
        proof {
            assert(lines.deep_view() =~= self@.workers.map_values(|w: WorkerV| worker_line(w)));
        }
        r
    }

    /// The coordinator's composed system prompt, seeding the user session's
    /// conversation.
    pub fn build_system_prompt(&self) -> (r: String)
        ensures
            r@ == queen_prompt(self@.workers, self@.directory),
    {
        let list = self.get_worker_list();
        let mut placeholders: Vec<Placeholder> = Vec::new();
        placeholders.push(Placeholder::new("{WORKERS}", list));
        placeholders.push(Placeholder::new("{DIRECTORY}", self.directory.clone()));
        let tools: Vec<Tool> = Vec::new();
        proof {
            assert(placeholders.deep_view() =~= seq![
                ("{WORKERS}"@, worker_list(self@.workers)),
                ("{DIRECTORY}"@, self@.directory),
            ]);
            assert(tools.deep_view() =~= Seq::<ToolV>::empty());
        }
        compose(self.system_prompt(), &placeholders, &tools)
    }

    /// The coordinator's tool catalogue: the one delegation tool, whose
    /// allowed targets are the registered roles.
    pub fn get_tools(&self) -> (r: Vec<Tool>)
        ensures
            r.deep_view() =~= seq![delegate_tool(roles_of(self@.workers))],
    {
        let roles = self.registry.all_roles();
        let mut properties: Vec<ParamProperty> = Vec::new();
        properties.push(ParamProperty::restricted("worker", "The worker to delegate to", roles));
        properties.push(
            ParamProperty::plain(
                "instruction",
                "string",
                "Natural language instruction for the worker",
            ),
        );
        let mut required: Vec<String> = Vec::new();
        required.push(String::from_str("worker"));
        required.push(String::from_str("instruction"));
        let schema = ParamSchema { properties, required };
        proof {
            assert(schema@.properties =~= delegate_tool(roles_of(self@.workers)).function.parameters.properties);
            assert(schema@.required =~= seq!["worker"@, "instruction"@]);
        }
        let mut tools: Vec<Tool> = Vec::new();
        tools.push(
            Tool::function_tool(
                "delegate_to_worker",
                "Delegate a task to a specialized worker",
                schema,
            ),
        );
        tools
    }

    /// The coordinator's decision for one tool invocation.
    pub fn plan_tool_call(&self, name: &str, args: &ArgObject) -> (p: QueenAction)
        ensures
            p@ == queen_plan(self@.workers, name@, args@),
    {
        if !str_eq(name, "delegate_to_worker") {
            let mut t: String = String::from_str("Error: Unknown tool '");
            t.append(name);
            t.append("'");
            QueenAction::Reply(t)
        } else {
            let role = args.str_field("worker");
            let instruction = args.str_field("instruction");
            if self.registry.has_role(role.as_str()) {
                QueenAction::Delegate { role, instruction }
            } else {
                let t = unknown_worker_message(role.as_str());
                QueenAction::Reply(t)
            }
        }
    }
}

/// Law: delegation to a role that is not registered yields an immediate
/// reply whose text carries the attempted role name; no worker loop ever
/// starts for it.
pub proof fn lemma_unknown_role_is_reply(ws: Seq<WorkerV>, args: Seq<(Seq<char>, ArgScalarV)>)
    requires
        lookup_role(ws, str_arg(args, "worker"@)) is None,
    ensures
        queen_plan(ws, "delegate_to_worker"@, args) == QueenActionV::Reply(
            unknown_worker_reply(str_arg(args, "worker"@)),
        ),
        contains_seq(unknown_worker_reply(str_arg(args, "worker"@)), str_arg(args, "worker"@)),
{
    let role = str_arg(args, "worker"@);
    reveal_strlit("Error: Worker '");
    assert(occurs_at(unknown_worker_reply(role), role, 15)) by {
        assert(unknown_worker_reply(role).subrange(15, 15 + role.len() as int) =~= role);
    }
}

} // verus!

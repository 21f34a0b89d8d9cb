//! The file-operations worker: a catalogue of file tools, the dispatch plan
//! for each, and the exact result text for every outcome of an operation.
//!
//! The worker decides everything that does not touch the file system: which
//! operation a tool invocation asks for, the new text of an edited file, and
//! the message reported for each outcome.  The caller performs the operation
//! itself and reports what happened.

use vstd::prelude::*;
use vstd::string::*;
use crate::compose::{compose, composed, Placeholder};
use crate::message::{str_arg, str_arg_or, uint_arg, ArgObject};
use crate::strings::{dec_digits, joined_lines, split_lines, split_into_lines, join_lines,
    u64_to_string};
use crate::tool::{fn_tool, integer_prop, one_string_schema, string_prop, three_string_schema,
    two_string_schema, ParamProperty, ParamSchema, ParamSchemaV, Tool, ToolV};
use crate::worker::{unknown_tool_message, unknown_tool_text, ToolPlan, ToolPlanV};

verus! {

/// A file operation asked for by a tool invocation, with its arguments
/// already extracted.
pub enum FileAction {
    /// Read a file and report its contents.
    Read { path: String },
    /// Create or overwrite a file with the given content.
    Write { path: String, content: String },
    /// List the names of a directory's entries.
    List { path: String },
    /// Delete a file.
    Delete { path: String },
    /// Create a directory and its missing parents.
    CreateDir { path: String },
    /// Append content at the end of a file, creating it when absent.
    Append { path: String, content: String },
    /// Insert content as a new line before the 1-indexed line number.
    InsertAtLine { path: String, line: u64, content: String },
    /// Replace the first occurrence of a text in a file.
    ReplaceText { path: String, old_text: String, new_text: String },
}

/// Ghost image of a file operation.
pub ghost enum FileActionV {
    Read { path: Seq<char> },
    Write { path: Seq<char>, content: Seq<char> },
    List { path: Seq<char> },
    Delete { path: Seq<char> },
    CreateDir { path: Seq<char> },
    Append { path: Seq<char>, content: Seq<char> },
    InsertAtLine { path: Seq<char>, line: u64, content: Seq<char> },
    ReplaceText { path: Seq<char>, old_text: Seq<char>, new_text: Seq<char> },
}

impl View for FileAction {
    type V = FileActionV;

    open spec fn view(&self) -> FileActionV {
        match self {
            FileAction::Read { path } => FileActionV::Read { path: path@ },
            FileAction::Write { path, content } => FileActionV::Write {
                path: path@,
                content: content@,
            },
            FileAction::List { path } => FileActionV::List { path: path@ },
            FileAction::Delete { path } => FileActionV::Delete { path: path@ },
            FileAction::CreateDir { path } => FileActionV::CreateDir { path: path@ },
            FileAction::Append { path, content } => FileActionV::Append {
                path: path@,
                content: content@,
            },
            FileAction::InsertAtLine { path, line, content } => FileActionV::InsertAtLine {
                path: path@,
                line: *line,
                content: content@,
            },
            FileAction::ReplaceText { path, old_text, new_text } => FileActionV::ReplaceText {
                path: path@,
                old_text: old_text@,
                new_text: new_text@,
            },
        }
    }
}

/// What performing a file operation yielded, as the caller reports it.
pub enum FileOutcome {
    /// A read succeeded with these contents.
    Content(String),
    /// A listing succeeded with these entry names.
    Names(Vec<String>),
    /// A mutation succeeded.
    Done,
    /// The text to replace was not found.
    NotFound,
    /// The target could not be opened or read; the cause in words.
    OpenFailed(String),
    /// The target could not be written; the cause in words.
    WriteFailed(String),
}

/// Ghost image of an operation's outcome.
pub ghost enum FileOutcomeV {
    Content(Seq<char>),
    Names(Seq<Seq<char>>),
    Done,
    NotFound,
    OpenFailed(Seq<char>),
    WriteFailed(Seq<char>),
}

impl View for FileOutcome {
    type V = FileOutcomeV;

    open spec fn view(&self) -> FileOutcomeV {
        match self {
            FileOutcome::Content(s) => FileOutcomeV::Content(s@),
            FileOutcome::Names(ns) => FileOutcomeV::Names(ns.deep_view()),
            FileOutcome::Done => FileOutcomeV::Done,
            FileOutcome::NotFound => FileOutcomeV::NotFound,
            FileOutcome::OpenFailed(s) => FileOutcomeV::OpenFailed(s@),
            FileOutcome::WriteFailed(s) => FileOutcomeV::WriteFailed(s@),
        }
    }
}

/// The JSON array encoding of a list of names, as the serializer renders
/// it.
pub uninterp spec fn json_names_of(names: Seq<Seq<char>>) -> Seq<char>;

/// Relies on serde_json::to_string on a vector of strings: the result is
/// the JSON array encoding of the names, a function of the names alone,
/// and serializing strings into an in-memory buffer cannot fail.
#[verifier::external_body]
fn encode_names(names: &Vec<String>) -> (r: String)
    ensures
        r@ == json_names_of(names.deep_view()),
{
    match serde_json::to_string(names) {
        Ok(s) => s,
        Err(_) => String::new(),
    }
}

/// The dispatch plan of the file worker for one invocation: the operation
/// the name asks for, with its arguments taken from the argument object, or
/// the unknown-tool text.
pub open spec fn file_plan(name: Seq<char>, args: Seq<(Seq<char>, crate::message::ArgScalarV)>) -> ToolPlanV {
    if name == "read_file"@ {
        ToolPlanV::FileOp(FileActionV::Read { path: str_arg(args, "path"@) })
    } else if name == "write_file"@ {
        ToolPlanV::FileOp(
            FileActionV::Write { path: str_arg(args, "path"@), content: str_arg(args, "content"@) },
        )
    } else if name == "list_directory"@ {
        ToolPlanV::FileOp(FileActionV::List { path: str_arg_or(args, "path"@, "."@) })
    } else if name == "delete_file"@ {
        ToolPlanV::FileOp(FileActionV::Delete { path: str_arg(args, "path"@) })
    } else if name == "create_directory"@ {
        ToolPlanV::FileOp(FileActionV::CreateDir { path: str_arg(args, "path"@) })
    } else if name == "append_file"@ {
        ToolPlanV::FileOp(
            FileActionV::Append { path: str_arg(args, "path"@), content: str_arg(args, "content"@) },
        )
    } else if name == "insert_at_line"@ {
        ToolPlanV::FileOp(
            FileActionV::InsertAtLine {
                path: str_arg(args, "path"@),
                line: uint_arg(args, "line_number"@, 1),
                content: str_arg(args, "content"@),
            },
        )
    } else if name == "replace_text"@ {
        ToolPlanV::FileOp(
            FileActionV::ReplaceText {
                path: str_arg(args, "path"@),
                old_text: str_arg(args, "old_text"@),
                new_text: str_arg(args, "new_text"@),
            },
        )
    } else {
        ToolPlanV::Immediate(unknown_tool_text(name))
    }
}

/// The catalogue of the file worker, in the order it is declared to the
/// backend.
pub open spec fn file_manager_tools() -> Seq<ToolV> {
    seq![
        fn_tool(
            "read_file"@,
            "Read the contents of a file"@,
            ParamSchemaV {
                properties: seq![string_prop("path"@, "Path to the file to read"@)],
                required: seq!["path"@],
            },
        ),
        fn_tool(
            "write_file"@,
            "Write content to a file (creates or overwrites)"@,
            ParamSchemaV {
                properties: seq![
                    string_prop("path"@, "Path to the file to write"@),
                    string_prop("content"@, "Content to write to the file"@),
                ],
                required: seq!["path"@, "content"@],
            },
        ),
        fn_tool(
            "list_directory"@,
            "List files and directories in a path"@,
            ParamSchemaV {
                properties: seq![string_prop("path"@, "Path to the directory to list"@)],
                required: seq!["path"@],
            },
        ),
        fn_tool(
            "delete_file"@,
            "Delete a file"@,
            ParamSchemaV {
                properties: seq![string_prop("path"@, "Path to the file to delete"@)],
                required: seq!["path"@],
            },
        ),
        fn_tool(
            "create_directory"@,
            "Create a directory (and parent directories if needed)"@,
            ParamSchemaV {
                properties: seq![string_prop("path"@, "Path to the directory to create"@)],
                required: seq!["path"@],
            },
        ),
        fn_tool(
            "append_file"@,
            "Append content to the end of a file"@,
            ParamSchemaV {
                properties: seq![
                    string_prop("path"@, "Path to the file to append to"@),
                    string_prop("content"@, "Content to append to the file"@),
                ],
                required: seq!["path"@, "content"@],
            },
        ),
        fn_tool(
            "insert_at_line"@,
            "Insert content at a specific line number (1-indexed)"@,
            ParamSchemaV {
                properties: seq![
                    string_prop("path"@, "Path to the file"@),
                    integer_prop(
                        "line_number"@,
                        "Line number to insert at (1-indexed, content inserted before this line)"@,
                    ),
                    string_prop("content"@, "Content to insert"@),
                ],
                required: seq!["path"@, "line_number"@, "content"@],
            },
        ),
        fn_tool(
            "replace_text"@,
            "Find and replace text in a file"@,
            ParamSchemaV {
                properties: seq![
                    string_prop("path"@, "Path to the file"@),
                    string_prop("old_text"@, "Text to find"@),
                    string_prop("new_text"@, "Text to replace it with"@),
                ],
                required: seq!["path"@, "old_text"@, "new_text"@],
            },
        ),
    ]
}

/// The file worker's prompt template.
pub open spec fn file_manager_prompt() -> Seq<char> {
    "You are a file operation executor. You receive commands and execute them using your tools.\n\n# Rules\n1. Parse the instruction to identify the operation and path\n2. Call the appropriate tool\n3. Return ONLY the raw result - no commentary, no analysis, no explanation\n\n# Current Directory\n{DIRECTORY}\n\n# Available Tools\n{TOOLS}\n\n# Response Format\nReturn the tool result directly. Do not add any interpretation or suggestions.\nJust the data.\n\n# Important\nDo not create files or directories unless explicitely asked.\nIf you are asked to find a directory, you do not fulfill the request by creating a directory then returning those results.\n"@
}

/// The worker that performs file system operations inside one directory.
pub struct FileManager {
    directory: String,
}

impl View for FileManager {
    type V = Seq<char>;

    closed spec fn view(&self) -> Seq<char> {
        self.directory@
    }
}

impl FileManager {
    /// A file worker rooted at `directory`.
    pub fn new(directory: String) -> (w: FileManager)
        ensures
            w@ == directory@,
    {
        FileManager { directory }
    }

    /// The directory the worker's paths are joined against.
    pub fn directory(&self) -> (r: &String)
        ensures
            r@ == self@,
    {
        &self.directory
    }

    /// The unique role identifier of this worker.
    pub fn role(&self) -> (r: &'static str)
        ensures
            r@ == "file_manager"@,
    {
        "file_manager"
    }

    /// The worker's description, as listed to the coordinator.
    pub fn description(&self) -> (r: &'static str)
        ensures
            r@ == "Manages file system operations including reading, writing, and organizing files"@,
    {
        "Manages file system operations including reading, writing, and organizing files"
    }

    /// The capability class of this worker.
    pub fn worker_type(&self) -> (r: &'static str)
        ensures
            r@ == "simple"@,
    {
        "simple"
    }

    /// The chat endpoint this worker's conversations go to.
    pub fn ollama_url(&self) -> (r: &'static str)
        ensures
            r@ == "http://localhost:11434/api/chat"@,
    {
        "http://localhost:11434/api/chat"
    }

    /// The model this worker converses with.
    pub fn model(&self) -> (r: &'static str)
        ensures
            r@ == "qwen2.5:7b"@,
    {
        "qwen2.5:7b"
    }

    /// The worker's prompt template.
    pub fn system_prompt(&self) -> (r: &'static str)
        ensures
            r@ == file_manager_prompt(),
    {
        "You are a file operation executor. You receive commands and execute them using your tools.\n\n# Rules\n1. Parse the instruction to identify the operation and path\n2. Call the appropriate tool\n3. Return ONLY the raw result - no commentary, no analysis, no explanation\n\n# Current Directory\n{DIRECTORY}\n\n# Available Tools\n{TOOLS}\n\n# Response Format\nReturn the tool result directly. Do not add any interpretation or suggestions.\nJust the data.\n\n# Important\nDo not create files or directories unless explicitely asked.\nIf you are asked to find a directory, you do not fulfill the request by creating a directory then returning those results.\n"
    }

    /// The placeholder values substituted into this worker's template.
    pub fn custom_placeholders(&self) -> (v: Vec<Placeholder>)
        ensures
            v.deep_view() =~= seq![("{DIRECTORY}"@, self@)],
    {
        let mut v: Vec<Placeholder> = Vec::new();
        v.push(Placeholder::new("{DIRECTORY}", self.directory.clone()));
        v
    }

    /// The worker's tool catalogue.
    pub fn get_tools(&self) -> (r: Vec<Tool>)
        ensures
            r.deep_view() =~= file_manager_tools(),
    {
        let mut tools: Vec<Tool> = Vec::new();
        tools.push(
            Tool::function_tool(
                "read_file",
                "Read the contents of a file",
                one_string_schema("path", "Path to the file to read"),
            ),
        );
        tools.push(
            Tool::function_tool(
                "write_file",
                "Write content to a file (creates or overwrites)",
                two_string_schema(
                    "path",
                    "Path to the file to write",
                    "content",
                    "Content to write to the file",
                ),
            ),
        );
        tools.push(
            Tool::function_tool(
                "list_directory",
                "List files and directories in a path",
                one_string_schema("path", "Path to the directory to list"),
            ),
        );
        tools.push(
            Tool::function_tool(
                "delete_file",
                "Delete a file",
                one_string_schema("path", "Path to the file to delete"),
            ),
        );
        tools.push(
            Tool::function_tool(
                "create_directory",
                "Create a directory (and parent directories if needed)",
                one_string_schema("path", "Path to the directory to create"),
            ),
        );
        tools.push(
            Tool::function_tool(
                "append_file",
                "Append content to the end of a file",
                two_string_schema(
                    "path",
                    "Path to the file to append to",
                    "content",
                    "Content to append to the file",
                ),
            ),
        );
        let mut insert_props: Vec<ParamProperty> = Vec::new();
        insert_props.push(ParamProperty::plain("path", "string", "Path to the file"));
        insert_props.push(
            ParamProperty::plain(
                "line_number",
                "integer",
                "Line number to insert at (1-indexed, content inserted before this line)",
            ),
        );
        insert_props.push(ParamProperty::plain("content", "string", "Content to insert"));
        let mut insert_required: Vec<String> = Vec::new();
        insert_required.push(String::from_str("path"));
        insert_required.push(String::from_str("line_number"));
        insert_required.push(String::from_str("content"));
        let insert_schema = ParamSchema { properties: insert_props, required: insert_required };
        proof {
            assert(insert_schema@.properties =~= seq![
                string_prop("path"@, "Path to the file"@),
                integer_prop(
                    "line_number"@,
                    "Line number to insert at (1-indexed, content inserted before this line)"@,
                ),
                string_prop("content"@, "Content to insert"@),
            ]);
            assert(insert_schema@.required =~= seq!["path"@, "line_number"@, "content"@]);
        }
        tools.push(
            Tool::function_tool(
                "insert_at_line",
                "Insert content at a specific line number (1-indexed)",
                insert_schema,
            ),
        );
        tools.push(
            Tool::function_tool(
                "replace_text",
                "Find and replace text in a file",
                three_string_schema(
                    "path",
                    "Path to the file",
                    "old_text",
                    "Text to find",
                    "new_text",
                    "Text to replace it with",
                ),
            ),
        );
        tools
    }

    /// The composed system prompt of this worker.
    pub fn build_system_prompt(&self) -> (r: String)
        ensures
            r@ == composed(
                file_manager_prompt(),
                seq![("{DIRECTORY}"@, self@)],
                file_manager_tools(),
            ),
    {
        let placeholders = self.custom_placeholders();
        let tools = self.get_tools();
        compose(self.system_prompt(), &placeholders, &tools)
    }

    /// The dispatch plan for one invocation of this worker's catalogue.
    pub fn plan_tool(&self, name: &str, args: &ArgObject) -> (p: ToolPlan)
        ensures
            p@ == file_plan(name@, args@),
    {
        if crate::strings::str_eq(name, "read_file") {
            ToolPlan::FileOp(FileAction::Read { path: args.str_field("path") })
        } else if crate::strings::str_eq(name, "write_file") {
            ToolPlan::FileOp(
                FileAction::Write {
                    path: args.str_field("path"),
                    content: args.str_field("content"),
                },
            )
        } else if crate::strings::str_eq(name, "list_directory") {
            ToolPlan::FileOp(FileAction::List { path: args.str_field_or("path", ".") })
        } else if crate::strings::str_eq(name, "delete_file") {
            ToolPlan::FileOp(FileAction::Delete { path: args.str_field("path") })
        } else if crate::strings::str_eq(name, "create_directory") {
            ToolPlan::FileOp(FileAction::CreateDir { path: args.str_field("path") })
        } else if crate::strings::str_eq(name, "append_file") {
            ToolPlan::FileOp(
                FileAction::Append {
                    path: args.str_field("path"),
                    content: args.str_field("content"),
                },
            )
        } else if crate::strings::str_eq(name, "insert_at_line") {
            ToolPlan::FileOp(
                FileAction::InsertAtLine {
                    path: args.str_field("path"),
                    line: args.number_field("line_number", 1),
                    content: args.str_field("content"),
                },
            )
        } else if crate::strings::str_eq(name, "replace_text") {
            ToolPlan::FileOp(
                FileAction::ReplaceText {
                    path: args.str_field("path"),
                    old_text: args.str_field("old_text"),
                    new_text: args.str_field("new_text"),
                },
            )
        } else {
            ToolPlan::Immediate(unknown_tool_message(name))
        }
    }
}

/// The new text of a file after inserting `content` as a line before the
/// 1-indexed `line_number`, clamped to the end; line zero inserts at the
/// start.  The text is split into lines and joined again with newlines, as
/// the operation rewrites the whole file.
pub open spec fn insert_line(file: Seq<char>, line_number: u64, content: Seq<char>) -> Seq<char> {
    let lines = split_lines(file);
    let idx: int = if line_number == 0 {
        0
    } else if line_number - 1 < lines.len() {
        line_number - 1
    } else {
        lines.len() as int
    };
    joined_lines(lines.insert(idx, content))
}

/// Computes the rewritten file text for the insert-at-line operation.
pub fn insert_line_text(file_content: &str, line_number: u64, content: &str) -> (r: String)
    ensures
        r@ == insert_line(file_content@, line_number, content@),
{
    let mut lines = split_into_lines(file_content);
    let count: usize = lines.len();
    let idx: usize = if line_number == 0 {
        0
    } else {
        let back: u64 = line_number - 1;
        if back < count as u64 {
            back as usize
        } else {
            count
        }
    };
    let ghost before = lines.deep_view();
    lines.insert(idx, String::from_str(content));
    proof {
        assert(lines.deep_view() =~= before.insert(idx as int, content@));
    }
    join_lines(&lines)
}

/// The exact text reported for a file operation's outcome: the contents or
/// listing on success, a success message naming the target for a mutation,
/// and a message naming the cause on failure.  An outcome that the
/// operation cannot produce reports empty text.
pub open spec fn file_result(action: FileActionV, outcome: FileOutcomeV) -> Seq<char> {
    match action {
        FileActionV::Read { path } => match outcome {
            FileOutcomeV::Content(c) => c,
            FileOutcomeV::OpenFailed(e) => "Error reading file: "@ + e,
            _ => Seq::<char>::empty(),
        },
        FileActionV::Write { path, content } => match outcome {
            FileOutcomeV::Done => "Successfully wrote to "@ + path,
            FileOutcomeV::WriteFailed(e) => "Error writing file: "@ + e,
            _ => Seq::<char>::empty(),
        },
        FileActionV::List { path } => match outcome {
            FileOutcomeV::Names(ns) => json_names_of(ns),
            FileOutcomeV::OpenFailed(e) => "Error listing directory: "@ + e,
            _ => Seq::<char>::empty(),
        },
        FileActionV::Delete { path } => match outcome {
            FileOutcomeV::Done => "Successfully deleted "@ + path,
            FileOutcomeV::OpenFailed(e) => "Error deleting file: "@ + e,
            _ => Seq::<char>::empty(),
        },
        FileActionV::CreateDir { path } => match outcome {
            FileOutcomeV::Done => "Successfully created directory "@ + path,
            FileOutcomeV::OpenFailed(e) => "Error creating directory: "@ + e,
            _ => Seq::<char>::empty(),
        },
        FileActionV::Append { path, content } => match outcome {
            FileOutcomeV::Done => "Successfully appended to "@ + path,
            FileOutcomeV::OpenFailed(e) => "Error opening file: "@ + e,
            FileOutcomeV::WriteFailed(e) => "Error writing to file: "@ + e,
            _ => Seq::<char>::empty(),
        },
        FileActionV::InsertAtLine { path, line, content } => match outcome {
            FileOutcomeV::Done => "Successfully inserted at line "@ + dec_digits(line as nat)
                + " in "@ + path,
            FileOutcomeV::OpenFailed(e) => "Error reading file: "@ + e,
            FileOutcomeV::WriteFailed(e) => "Error writing file: "@ + e,
            _ => Seq::<char>::empty(),
        },
        FileActionV::ReplaceText { path, old_text, new_text } => match outcome {
            FileOutcomeV::Done => "Successfully replaced text in "@ + path,
            FileOutcomeV::NotFound => "Error: old_text not found in "@ + path,
            FileOutcomeV::OpenFailed(e) => "Error reading file: "@ + e,
            FileOutcomeV::WriteFailed(e) => "Error writing file: "@ + e,
            _ => Seq::<char>::empty(),
        },
    }
}

/// Builds the text reported for a file operation's outcome.
pub fn file_result_text(action: &FileAction, outcome: FileOutcome) -> (r: String)
    ensures
        r@ == file_result(action@, outcome@),
{
    match action {
        FileAction::Read { path } => match outcome {
            FileOutcome::Content(c) => c,
            FileOutcome::OpenFailed(e) => prefixed("Error reading file: ", e.as_str()),
            _ => String::new(),
        },
        FileAction::Write { path, content } => match outcome {
            FileOutcome::Done => prefixed("Successfully wrote to ", path.as_str()),
            FileOutcome::WriteFailed(e) => prefixed("Error writing file: ", e.as_str()),
            _ => String::new(),
        },
        FileAction::List { path } => match outcome {
            FileOutcome::Names(ns) => encode_names(&ns),
            FileOutcome::OpenFailed(e) => prefixed("Error listing directory: ", e.as_str()),
            _ => String::new(),
        },
        FileAction::Delete { path } => match outcome {
            FileOutcome::Done => prefixed("Successfully deleted ", path.as_str()),
            FileOutcome::OpenFailed(e) => prefixed("Error deleting file: ", e.as_str()),
            _ => String::new(),
        },
        FileAction::CreateDir { path } => match outcome {
            FileOutcome::Done => prefixed("Successfully created directory ", path.as_str()),
            FileOutcome::OpenFailed(e) => prefixed("Error creating directory: ", e.as_str()),
            _ => String::new(),
        },
        FileAction::Append { path, content } => match outcome {
            FileOutcome::Done => prefixed("Successfully appended to ", path.as_str()),
            FileOutcome::OpenFailed(e) => prefixed("Error opening file: ", e.as_str()),
            FileOutcome::WriteFailed(e) => prefixed("Error writing to file: ", e.as_str()),
            _ => String::new(),
        },
        FileAction::InsertAtLine { path, line, content } => match outcome {
            FileOutcome::Done => {
                let mut s: String = String::from_str("Successfully inserted at line ");
                s.append(u64_to_string(*line).as_str());
                s.append(" in ");
                s.append(path.as_str());
                s
            },
            FileOutcome::OpenFailed(e) => prefixed("Error reading file: ", e.as_str()),
            FileOutcome::WriteFailed(e) => prefixed("Error writing file: ", e.as_str()),
            _ => String::new(),
        },
        FileAction::ReplaceText { path, old_text, new_text } => match outcome {
            FileOutcome::Done => prefixed("Successfully replaced text in ", path.as_str()),
            FileOutcome::NotFound => prefixed("Error: old_text not found in ", path.as_str()),
            FileOutcome::OpenFailed(e) => prefixed("Error reading file: ", e.as_str()),
            FileOutcome::WriteFailed(e) => prefixed("Error writing file: ", e.as_str()),
            _ => String::new(),
        },
    }
}

/// A fixed prefix followed by a tail.
fn prefixed(prefix: &str, tail: &str) -> (r: String)
    ensures
        r@ == prefix@ + tail@,
{
    let mut s: String = String::from_str(prefix);
    s.append(tail);
    s
}

} // verus!

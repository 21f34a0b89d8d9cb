//! The coder worker: an advanced agent with no tools of its own — its loop
//! always closes on the first content reply.

use vstd::prelude::*;
use vstd::string::*;
use crate::compose::{compose, composed, Placeholder};
use crate::tool::{Tool, ToolV};

verus! {

/// The coder worker's prompt template.
pub open spec fn coder_prompt() -> Seq<char> {
    "You are an expert software engineer. You analyze code and write code.\n\n# When Analyzing Code\n- Identify issues, bugs, or improvements\n- Explain the code's purpose and structure\n- Point out potential problems or edge cases\n\n# When Writing Code\n- Write clean, idiomatic code\n- Follow best practices for the language\n- Include necessary error handling\n- Keep it focused on the specific request\n\n# Response Format\n- Be direct and technical\n- When writing code, output the code directly\n- When analyzing, be concise but thorough\n- No unnecessary preamble or filler"@
}

/// The worker that analyzes and writes code.
pub struct Coder;

impl Coder {
    /// A coder worker.
    pub fn new() -> Coder {
        Coder
    }

    /// The unique role identifier of this worker.
    pub fn role(&self) -> (r: &'static str)
        ensures
            r@ == "coder"@,
    {
        "coder"
    }

    /// The worker's description, as listed to the coordinator.
    pub fn description(&self) -> (r: &'static str)
        ensures
            r@ == "Analyzes code, writes code, and provides technical solutions. Give full context and code."@,
    {
        "Analyzes code, writes code, and provides technical solutions. Give full context and code."
    }

    /// The capability class of this worker.
    pub fn worker_type(&self) -> (r: &'static str)
        ensures
            r@ == "advanced"@,
    {
        "advanced"
    }

    /// The chat endpoint this worker's conversations go to.
    pub fn ollama_url(&self) -> (r: &'static str)
        ensures
            r@ == "http://localhost:11435/api/chat"@,
    {
        "http://localhost:11435/api/chat"
    }

    /// The model this worker converses with.
    pub fn model(&self) -> (r: &'static str)
        ensures
            r@ == "qwen2.5-coder:32b"@,
    {
        "qwen2.5-coder:32b"
    }

    /// The worker's prompt template.
    pub fn system_prompt(&self) -> (r: &'static str)
        ensures
            r@ == coder_prompt(),
    {
        "You are an expert software engineer. You analyze code and write code.\n\n# When Analyzing Code\n- Identify issues, bugs, or improvements\n- Explain the code's purpose and structure\n- Point out potential problems or edge cases\n\n# When Writing Code\n- Write clean, idiomatic code\n- Follow best practices for the language\n- Include necessary error handling\n- Keep it focused on the specific request\n\n# Response Format\n- Be direct and technical\n- When writing code, output the code directly\n- When analyzing, be concise but thorough\n- No unnecessary preamble or filler"
    }

    /// The placeholder values substituted into this worker's template: none.
    pub fn custom_placeholders(&self) -> (v: Vec<Placeholder>)
        ensures
            v.deep_view() =~= Seq::<(Seq<char>, Seq<char>)>::empty(),
    {
        Vec::new()
    }

    /// The worker's tool catalogue: empty, so its loop always closes after
    /// one request.
    pub fn get_tools(&self) -> (r: Vec<Tool>)
        ensures
            r.deep_view() =~= Seq::<ToolV>::empty(),
    {
        Vec::new()
    }

    /// The composed system prompt of this worker.
    pub fn build_system_prompt(&self) -> (r: String)
        ensures
            r@ == composed(
                coder_prompt(),
                Seq::<(Seq<char>, Seq<char>)>::empty(),
                Seq::<ToolV>::empty(),
            ),
    {
        let placeholders = self.custom_placeholders();
        let tools = self.get_tools();
        compose(self.system_prompt(), &placeholders, &tools)
    }
}

} // verus!

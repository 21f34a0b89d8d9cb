//! The tool catalogue model: a callable operation's name, description and
//! parameter shape, and the human-readable listing that the prompt composer
//! puts in place of the tool-list placeholder.
//!
//! Parameter shapes are descriptive guidance for the model, not a runtime
//! validation gate: dispatch never checks arguments against them.

use vstd::prelude::*;
use vstd::string::*;
use crate::strings::joined_lines;

verus! {

/// One named parameter of a callable operation.
pub struct ParamProperty {
    pub name: String,
    pub ptype: String,
    pub description: String,
    /// The values the parameter may take, when it is restricted to a closed
    /// set (the delegation target, for one).
    pub allowed: Option<Vec<String>>,
}

/// Ghost image of a parameter.
pub ghost struct ParamPropertyV {
    pub name: Seq<char>,
    pub ptype: Seq<char>,
    pub description: Seq<char>,
    pub allowed: Option<Seq<Seq<char>>>,
}

impl View for ParamProperty {
    type V = ParamPropertyV;

    open spec fn view(&self) -> ParamPropertyV {
        ParamPropertyV {
            name: self.name@,
            ptype: self.ptype@,
            description: self.description@,
            allowed: match &self.allowed {
                Some(vs) => Some(vs.deep_view()),
                None => None,
            },
        }
    }
}

/// The parameter shape of a callable operation: its properties and which of
/// them are required.
pub struct ParamSchema {
    pub properties: Vec<ParamProperty>,
    pub required: Vec<String>,
}

/// Ghost image of a parameter shape.
pub ghost struct ParamSchemaV {
    pub properties: Seq<ParamPropertyV>,
    pub required: Seq<Seq<char>>,
}

impl View for ParamSchema {
    type V = ParamSchemaV;

    open spec fn view(&self) -> ParamSchemaV {
        ParamSchemaV {
            properties: Seq::new(self.properties@.len(), |i: int| self.properties@[i]@),
            required: self.required.deep_view(),
        }
    }
}

/// A callable operation as declared to the backend.
pub struct ToolFunction {
    pub name: String,
    pub description: String,
    pub parameters: ParamSchema,
}

/// Ghost image of a callable operation.
pub ghost struct ToolFunctionV {
    pub name: Seq<char>,
    pub description: Seq<char>,
    pub parameters: ParamSchemaV,
}

impl View for ToolFunction {
    type V = ToolFunctionV;

    open spec fn view(&self) -> ToolFunctionV {
        ToolFunctionV {
            name: self.name@,
            description: self.description@,
            parameters: self.parameters@,
        }
    }
}

/// A catalogue entry: the operation together with its declared kind, which
/// is always `function` for this backend.
pub struct Tool {
    pub tool_type: String,
    pub function: ToolFunction,
}

/// Ghost image of a catalogue entry.
pub ghost struct ToolV {
    pub tool_type: Seq<char>,
    pub function: ToolFunctionV,
}

impl View for Tool {
    type V = ToolV;

    open spec fn view(&self) -> ToolV {
        ToolV { tool_type: self.tool_type@, function: self.function@ }
    }
}

impl DeepView for Tool {
    type V = ToolV;

    open spec fn deep_view(&self) -> ToolV {
        self@
    }
}

impl Tool {
    /// A catalogue entry of kind `function`.
    pub fn function_tool(name: &str, description: &str, parameters: ParamSchema) -> (t: Tool)
        ensures
            t@ == (ToolV {
                tool_type: "function"@,
                function: ToolFunctionV {
                    name: name@,
                    description: description@,
                    parameters: parameters@,
                },
            }),
    {
        Tool {
            tool_type: String::from_str("function"),
            function: ToolFunction {
                name: String::from_str(name),
                description: String::from_str(description),
                parameters,
            },
        }
    }
}

impl ParamProperty {
    /// A plain parameter of the given type.
    pub fn plain(name: &str, ptype: &str, description: &str) -> (p: ParamProperty)
        ensures
            p@ == (ParamPropertyV {
                name: name@,
                ptype: ptype@,
                description: description@,
                allowed: None,
            }),
    {
        ParamProperty {
            name: String::from_str(name),
            ptype: String::from_str(ptype),
            description: String::from_str(description),
            allowed: None,
        }
    }

    /// A string parameter restricted to a closed set of values.
    pub fn restricted(name: &str, description: &str, allowed: Vec<String>) -> (p: ParamProperty)
        ensures
            p@ == (ParamPropertyV {
                name: name@,
                ptype: "string"@,
                description: description@,
                allowed: Some(allowed.deep_view()),
            }),
    {
        ParamProperty {
            name: String::from_str(name),
            ptype: String::from_str("string"),
            description: String::from_str(description),
            allowed: Some(allowed),
        }
    }
}

/// The ghost image of a plain string parameter.
pub open spec fn string_prop(name: Seq<char>, description: Seq<char>) -> ParamPropertyV {
    ParamPropertyV { name, ptype: "string"@, description, allowed: None }
}

/// The ghost image of a plain integer parameter.
pub open spec fn integer_prop(name: Seq<char>, description: Seq<char>) -> ParamPropertyV {
    ParamPropertyV { name, ptype: "integer"@, description, allowed: None }
}

/// The ghost image of a catalogue entry of kind `function`.
pub open spec fn fn_tool(name: Seq<char>, description: Seq<char>, parameters: ParamSchemaV) -> ToolV {
    ToolV { tool_type: "function"@, function: ToolFunctionV { name, description, parameters } }
}

/// A parameter shape of one required string parameter.
pub fn one_string_schema(p1: &str, d1: &str) -> (s: ParamSchema)
    ensures
        s@ == (ParamSchemaV { properties: seq![string_prop(p1@, d1@)], required: seq![p1@] }),
{
    let mut properties: Vec<ParamProperty> = Vec::new();
    properties.push(ParamProperty::plain(p1, "string", d1));
    let mut required: Vec<String> = Vec::new();
    required.push(String::from_str(p1));
    let s = ParamSchema { properties, required };
    proof {
        assert(s@.properties =~= seq![string_prop(p1@, d1@)]);
        assert(s@.required =~= seq![p1@]);
    }
    s
}

/// A parameter shape of two required string parameters.
pub fn two_string_schema(p1: &str, d1: &str, p2: &str, d2: &str) -> (s: ParamSchema)
    ensures
        s@ == (ParamSchemaV {
            properties: seq![string_prop(p1@, d1@), string_prop(p2@, d2@)],
            required: seq![p1@, p2@],
        }),
{
    let mut properties: Vec<ParamProperty> = Vec::new();
    properties.push(ParamProperty::plain(p1, "string", d1));
    properties.push(ParamProperty::plain(p2, "string", d2));
    let mut required: Vec<String> = Vec::new();
    required.push(String::from_str(p1));
    required.push(String::from_str(p2));
    let s = ParamSchema { properties, required };
    proof {
        assert(s@.properties =~= seq![string_prop(p1@, d1@), string_prop(p2@, d2@)]);
        assert(s@.required =~= seq![p1@, p2@]);
    }
    s
}

/// A parameter shape of three required string parameters.
pub fn three_string_schema(p1: &str, d1: &str, p2: &str, d2: &str, p3: &str, d3: &str) -> (s:
    ParamSchema)
    ensures
        s@ == (ParamSchemaV {
            properties: seq![string_prop(p1@, d1@), string_prop(p2@, d2@), string_prop(p3@, d3@)],
            required: seq![p1@, p2@, p3@],
        }),
{
    let mut properties: Vec<ParamProperty> = Vec::new();
    properties.push(ParamProperty::plain(p1, "string", d1));
    properties.push(ParamProperty::plain(p2, "string", d2));
    properties.push(ParamProperty::plain(p3, "string", d3));
    let mut required: Vec<String> = Vec::new();
    required.push(String::from_str(p1));
    required.push(String::from_str(p2));
    required.push(String::from_str(p3));
    let s = ParamSchema { properties, required };
    proof {
        assert(s@.properties =~= seq![
            string_prop(p1@, d1@),
            string_prop(p2@, d2@),
            string_prop(p3@, d3@),
        ]);
        assert(s@.required =~= seq![p1@, p2@, p3@]);
    }
    s
}

/// The line standing for one tool in the listing.
pub open spec fn tool_line(t: ToolV) -> Seq<char> {
    "- **"@ + t.function.name + "**: "@ + t.function.description
}

/// The human-readable enumeration of a catalogue: one line per tool, or a
/// fixed text when the catalogue is empty.
pub open spec fn tools_block(tools: Seq<ToolV>) -> Seq<char> {
    if tools.len() == 0 {
        "No tools available."@
    } else {
        joined_lines(Seq::new(tools.len(), |i: int| tool_line(tools[i])))
    }
}

/// The listing line for one tool.
fn render_tool_line(t: &Tool) -> (r: String)
    ensures
        r@ == tool_line(t@),
{
    let mut s: String = String::from_str("- **");
    s.append(t.function.name.as_str());
    s.append("**: ");
    s.append(t.function.description.as_str());
    s
}

/// Renders the tool listing put in place of the tool-list placeholder.
pub fn render_tools_block(tools: &Vec<Tool>) -> (r: String)
    ensures
        r@ == tools_block(tools.deep_view()),
{
    let n: usize = tools.len();
    if n == 0 {
        return String::from_str("No tools available.");
    }
    let ghost lines = Seq::new(tools.deep_view().len(), |i: int| tool_line(tools.deep_view()[i]));
    let mut out: String = render_tool_line(&tools[0]);
    let mut i: usize = 1;
    proof {
        assert(lines.take(1) =~= seq![lines[0]]);
        assert(joined_lines(lines.take(1)) == lines[0]);
    }
    while i < n
        invariant
            n == tools@.len(),
            1 <= i <= n,
            lines == Seq::new(
                tools.deep_view().len(),
                |j: int| tool_line(tools.deep_view()[j]),
            ),
            lines.len() == n,
            out@ == joined_lines(lines.take(i as int)),
        decreases n - i,
    {
        out.append("\n");
        let line = render_tool_line(&tools[i]);
        out.append(line.as_str());
        proof {
            assert(lines.take(i + 1).drop_last() =~= lines.take(i as int));
            assert(lines.take(i + 1).last() == lines[i as int]);
        }
        i = i + 1;
    }
    proof {
        assert(lines.take(n as int) =~= lines);
    }
    out
}

} // verus!

//! The conversation data model: turns, tool invocations and their argument
//! values, together with the ghost views that contracts speak of.

use vstd::prelude::*;
use vstd::string::*;
use crate::strings::str_eq;

verus! {

/// The speaker of a conversation turn.
#[derive(Clone, Copy, PartialEq, Eq, Structural, Debug)]
pub enum Role {
    System,
    User,
    Assistant,
    Tool,
}

/// A scalar argument value carried by a tool invocation.
pub enum ArgScalar {
    Null,
    Flag(bool),
    Number(u64),
    Text(String),
}

/// Ghost image of an argument value.
pub ghost enum ArgScalarV {
    Null,
    Flag(bool),
    Number(u64),
    Text(Seq<char>),
}

impl View for ArgScalar {
    type V = ArgScalarV;

    open spec fn view(&self) -> ArgScalarV {
        match self {
            ArgScalar::Null => ArgScalarV::Null,
            ArgScalar::Flag(b) => ArgScalarV::Flag(*b),
            ArgScalar::Number(n) => ArgScalarV::Number(*n),
            ArgScalar::Text(s) => ArgScalarV::Text(s@),
        }
    }
}

/// One named argument of a tool invocation.
pub struct ArgEntry {
    pub key: String,
    pub value: ArgScalar,
}

impl View for ArgEntry {
    type V = (Seq<char>, ArgScalarV);

    open spec fn view(&self) -> (Seq<char>, ArgScalarV) {
        (self.key@, self.value@)
    }
}

/// The argument object of a tool invocation: named scalar values, as the
/// backend supplies them.
pub struct ArgObject {
    pub entries: Vec<ArgEntry>,
}

impl View for ArgObject {
    type V = Seq<(Seq<char>, ArgScalarV)>;

    open spec fn view(&self) -> Seq<(Seq<char>, ArgScalarV)> {
        Seq::new(self.entries@.len(), |i: int| self.entries@[i]@)
    }
}

/// The value bound to `key`, taking the first binding when a key repeats.
pub open spec fn lookup_arg(entries: Seq<(Seq<char>, ArgScalarV)>, key: Seq<char>) -> Option<
    ArgScalarV,
>
    decreases entries.len(),
{
    if entries.len() == 0 {
        None
    } else if entries[0].0 == key {
        Some(entries[0].1)
    } else {
        lookup_arg(entries.drop_first(), key)
    }
}

/// The text bound to `key`, or the empty text when the key is absent or not
/// bound to text.
pub open spec fn str_arg(entries: Seq<(Seq<char>, ArgScalarV)>, key: Seq<char>) -> Seq<char> {
    match lookup_arg(entries, key) {
        Some(ArgScalarV::Text(s)) => s,
        _ => Seq::<char>::empty(),
    }
}

/// The text bound to `key`, or `default` when the key is absent or not
/// bound to text.
pub open spec fn str_arg_or(
    entries: Seq<(Seq<char>, ArgScalarV)>,
    key: Seq<char>,
    default: Seq<char>,
) -> Seq<char> {
    match lookup_arg(entries, key) {
        Some(ArgScalarV::Text(s)) => s,
        _ => default,
    }
}

/// The number bound to `key`, or `default` when the key is absent or not
/// bound to a number.
pub open spec fn uint_arg(entries: Seq<(Seq<char>, ArgScalarV)>, key: Seq<char>, default: u64) -> u64 {
    match lookup_arg(entries, key) {
        Some(ArgScalarV::Number(n)) => n,
        _ => default,
    }
}

impl ArgObject {
    /// An argument object with no entries.
    pub fn new() -> (r: ArgObject)
        ensures
            r@ =~= Seq::<(Seq<char>, ArgScalarV)>::empty(),
    {
        ArgObject { entries: Vec::new() }
    }

    /// Appends a text-valued argument.
    pub fn push_text(&mut self, key: String, value: String)
        ensures
            final(self)@ =~= old(self)@.push((key@, ArgScalarV::Text(value@))),
    {
        self.entries.push(ArgEntry { key, value: ArgScalar::Text(value) });
    }

    /// Appends a number-valued argument.
    pub fn push_number(&mut self, key: String, value: u64)
        ensures
            final(self)@ =~= old(self)@.push((key@, ArgScalarV::Number(value))),
    {
        self.entries.push(ArgEntry { key, value: ArgScalar::Number(value) });
    }

    /// The text bound to `key`, or the empty string when the key is absent or
    /// not bound to text.
    pub fn str_field(&self, key: &str) -> (r: String)
        ensures
            r@ == str_arg(self@, key@),
    {
        let mut i: usize = 0;
        let n: usize = self.entries.len();
        proof {
            assert(self@.skip(0) =~= self@);
        }
        while i < n
            invariant
                n == self.entries@.len(),
                i <= n,
                lookup_arg(self@, key@) == lookup_arg(self@.skip(i as int), key@),
            decreases n - i,
        {
            proof {
                assert(self@.skip(i as int).drop_first() =~= self@.skip(i + 1));
                assert(self@.skip(i as int)[0] == self@[i as int]);
            }
            let entry = &self.entries[i];
            if str_eq(entry.key.as_str(), key) {
                match &entry.value {
                    ArgScalar::Text(s) => {
                        return s.clone();
                    },
                    _ => {
                        return String::new();
                    },
                }
            }
            i = i + 1;
        }
        proof {
            assert(self@.skip(n as int) =~= Seq::<(Seq<char>, ArgScalarV)>::empty());
        }
        String::new()
    }

    /// The text bound to `key`, or `default` when the key is absent or not
    /// bound to text.
    pub fn str_field_or(&self, key: &str, default: &str) -> (r: String)
        ensures
            r@ == str_arg_or(self@, key@, default@),
    {
        let mut i: usize = 0;
        let n: usize = self.entries.len();
        proof {
            assert(self@.skip(0) =~= self@);
        }
        while i < n
            invariant
                n == self.entries@.len(),
                i <= n,
                lookup_arg(self@, key@) == lookup_arg(self@.skip(i as int), key@),
            decreases n - i,
        {
            proof {
                assert(self@.skip(i as int).drop_first() =~= self@.skip(i + 1));
                assert(self@.skip(i as int)[0] == self@[i as int]);
            }
            let entry = &self.entries[i];
            if str_eq(entry.key.as_str(), key) {
                match &entry.value {
                    ArgScalar::Text(s) => {
                        return s.clone();
                    },
                    _ => {
                        return String::from_str(default);
                    },
                }
            }
            i = i + 1;
        }
        proof {
            assert(self@.skip(n as int) =~= Seq::<(Seq<char>, ArgScalarV)>::empty());
        }
        String::from_str(default)
    }

    /// The number bound to `key`, or `default` when the key is absent or not
    /// bound to a number.
    pub fn number_field(&self, key: &str, default: u64) -> (r: u64)
        ensures
            r == uint_arg(self@, key@, default),
    {
        let mut i: usize = 0;
        let n: usize = self.entries.len();
        proof {
            assert(self@.skip(0) =~= self@);
        }
        while i < n
            invariant
                n == self.entries@.len(),
                i <= n,
                lookup_arg(self@, key@) == lookup_arg(self@.skip(i as int), key@),
            decreases n - i,
        {
            proof {
                assert(self@.skip(i as int).drop_first() =~= self@.skip(i + 1));
                assert(self@.skip(i as int)[0] == self@[i as int]);
            }
            let entry = &self.entries[i];
            if str_eq(entry.key.as_str(), key) {
                match &entry.value {
                    ArgScalar::Number(v) => {
                        return *v;
                    },
                    _ => {
                        return default;
                    },
                }
            }
            i = i + 1;
        }
        proof {
            assert(self@.skip(n as int) =~= Seq::<(Seq<char>, ArgScalarV)>::empty());
        }
        default
    }
}

impl ArgScalar {
    /// A copy of this value.
    pub fn duplicate(&self) -> (r: ArgScalar)
        ensures
            r@ == self@,
    {
        match self {
            ArgScalar::Null => ArgScalar::Null,
            ArgScalar::Flag(b) => ArgScalar::Flag(*b),
            ArgScalar::Number(n) => ArgScalar::Number(*n),
            ArgScalar::Text(s) => ArgScalar::Text(s.clone()),
        }
    }
}

/// A structured request, emitted by the backend, to run a named operation
/// with arguments.
pub struct FunctionCall {
    pub name: String,
    pub arguments: ArgObject,
}

/// Ghost image of a tool invocation.
pub ghost struct FunctionCallV {
    pub name: Seq<char>,
    pub arguments: Seq<(Seq<char>, ArgScalarV)>,
}

impl View for FunctionCall {
    type V = FunctionCallV;

    open spec fn view(&self) -> FunctionCallV {
        FunctionCallV { name: self.name@, arguments: self.arguments@ }
    }
}

impl ArgObject {
    /// A copy of this argument object.
    pub fn duplicate(&self) -> (r: ArgObject)
        ensures
            r@ == self@,
    {
        let mut entries: Vec<ArgEntry> = Vec::new();
        let n: usize = self.entries.len();
        let mut i: usize = 0;
        while i < n
            invariant
                n == self.entries@.len(),
                i <= n,
                entries@.len() == i,
                forall|j: int| 0 <= j < i ==> entries@[j]@ == self.entries@[j]@,
            decreases n - i,
        {
            let e = &self.entries[i];
            entries.push(ArgEntry { key: e.key.clone(), value: e.value.duplicate() });
            i = i + 1;
        }
        let r = ArgObject { entries };
        proof {
            assert(r@ =~= self@);
        }
        r
    }
}

impl FunctionCall {
    /// A copy of this invocation.
    pub fn duplicate(&self) -> (r: FunctionCall)
        ensures
            r@ == self@,
    {
        FunctionCall { name: self.name.clone(), arguments: self.arguments.duplicate() }
    }
}

/// A tool invocation as it stands in an assistant turn.
pub struct ToolCall {
    pub function: FunctionCall,
}

impl View for ToolCall {
    type V = FunctionCallV;

    open spec fn view(&self) -> FunctionCallV {
        self.function@
    }
}

impl DeepView for ToolCall {
    type V = FunctionCallV;

    open spec fn deep_view(&self) -> FunctionCallV {
        self@
    }
}

impl ToolCall {
    /// A copy of this invocation.
    pub fn duplicate(&self) -> (r: ToolCall)
        ensures
            r@ == self@,
    {
        ToolCall { function: self.function.duplicate() }
    }
}

/// A copy of a list of invocations, element for element.
pub fn duplicate_calls(calls: &Vec<ToolCall>) -> (r: Vec<ToolCall>)
    ensures
        r.deep_view() =~= calls.deep_view(),
{
    let mut out: Vec<ToolCall> = Vec::new();
    let n: usize = calls.len();
    let mut i: usize = 0;
    while i < n
        invariant
            n == calls@.len(),
            i <= n,
            out@.len() == i,
            forall|j: int| 0 <= j < i ==> out@[j]@ == calls@[j]@,
        decreases n - i,
    {
        out.push(calls[i].duplicate());
        i = i + 1;
    }
    out
}

/// One turn of a conversation.
pub struct Message {
    pub role: Role,
    pub content: Option<String>,
    pub tool_calls: Option<Vec<ToolCall>>,
}

/// Ghost image of a conversation turn.
pub ghost struct MessageV {
    pub role: Role,
    pub content: Option<Seq<char>>,
    pub tool_calls: Option<Seq<FunctionCallV>>,
}

impl View for Message {
    type V = MessageV;

    open spec fn view(&self) -> MessageV {
        MessageV {
            role: self.role,
            content: self.content.deep_view(),
            tool_calls: self.tool_calls.deep_view(),
        }
    }
}

impl DeepView for Message {
    type V = MessageV;

    open spec fn deep_view(&self) -> MessageV {
        self@
    }
}

/// The ghost image of a `system` turn holding `text`.
pub open spec fn system_turn(text: Seq<char>) -> MessageV {
    MessageV { role: Role::System, content: Some(text), tool_calls: None }
}

/// The ghost image of a `user` turn holding `text`.
pub open spec fn user_turn(text: Seq<char>) -> MessageV {
    MessageV { role: Role::User, content: Some(text), tool_calls: None }
}

/// The ghost image of a `tool` turn holding `text`.
pub open spec fn tool_turn(text: Seq<char>) -> MessageV {
    MessageV { role: Role::Tool, content: Some(text), tool_calls: None }
}

impl Message {
    /// A `system` turn holding `text`.
    pub fn system(text: String) -> (m: Message)
        ensures
            m@ == system_turn(text@),
    {
        Message { role: Role::System, content: Some(text), tool_calls: None }
    }

    /// A `user` turn holding `text`.
    pub fn user(text: String) -> (m: Message)
        ensures
            m@ == user_turn(text@),
    {
        Message { role: Role::User, content: Some(text), tool_calls: None }
    }

    /// A `tool` turn holding `text`.
    pub fn tool(text: String) -> (m: Message)
        ensures
            m@ == tool_turn(text@),
    {
        Message { role: Role::Tool, content: Some(text), tool_calls: None }
    }

    /// An `assistant` turn holding plain text and no tool invocations.
    pub fn assistant_text(text: String) -> (m: Message)
        ensures
            m@ == (MessageV { role: Role::Assistant, content: Some(text@), tool_calls: None }),
    {
        Message { role: Role::Assistant, content: Some(text), tool_calls: None }
    }

    /// An `assistant` turn carrying tool invocations.
    pub fn assistant_calls(calls: Vec<ToolCall>) -> (m: Message)
        ensures
            m@ == (MessageV {
                role: Role::Assistant,
                content: None,
                tool_calls: Some(calls.deep_view()),
            }),
    {
        Message { role: Role::Assistant, content: None, tool_calls: Some(calls) }
    }

    /// A copy of this turn.
    pub fn duplicate(&self) -> (m: Message)
        ensures
            m@ == self@,
    {
        let content: Option<String> = match &self.content {
            Some(t) => Some(t.clone()),
            None => None,
        };
        let tool_calls: Option<Vec<ToolCall>> = match &self.tool_calls {
            Some(calls) => {
                let dup = duplicate_calls(calls);
                Some(dup)
            },
            None => None,
        };
        Message { role: self.role, content, tool_calls }
    }
}

/// A copy of a conversation, turn for turn.
pub fn duplicate_messages(messages: &Vec<Message>) -> (r: Vec<Message>)
    ensures
        r.deep_view() =~= messages.deep_view(),
{
    let mut out: Vec<Message> = Vec::new();
    let n: usize = messages.len();
    let mut i: usize = 0;
    while i < n
        invariant
            n == messages@.len(),
            i <= n,
            out@.len() == i,
            forall|j: int| 0 <= j < i ==> out@[j]@ == messages@[j]@,
        decreases n - i,
    {
        out.push(messages[i].duplicate());
        i = i + 1;
    }
    out
}

} // verus!

//! The prompt composer: substitutes named placeholders into an agent's
//! prompt template, puts the tool listing in place of the tool-list
//! placeholder, and appends the fixed block describing the iteration budget.
//!
//! A placeholder with no supplied value is left verbatim; substitution is a
//! pure function of the template, the placeholder values and the tool
//! catalogue.

use vstd::prelude::*;
use vstd::string::*;
use crate::strings::{contains_seq, contains_str, replace_all, replaced};
use crate::tool::{Tool, ToolV, tools_block, render_tools_block};

verus! {

/// A named value to substitute for its placeholder key in a template.
pub struct Placeholder {
    pub key: String,
    pub value: String,
}

impl View for Placeholder {
    type V = (Seq<char>, Seq<char>);

    open spec fn view(&self) -> (Seq<char>, Seq<char>) {
        (self.key@, self.value@)
    }
}

impl DeepView for Placeholder {
    type V = (Seq<char>, Seq<char>);

    open spec fn deep_view(&self) -> (Seq<char>, Seq<char>) {
        self@
    }
}

impl Placeholder {
    /// A placeholder binding `key` to `value`.
    pub fn new(key: &str, value: String) -> (p: Placeholder)
        ensures
            p@ == (key@, value@),
    {
        Placeholder { key: String::from_str(key), value }
    }
}

/// The fixed trailing block describing the iteration-budget behaviour,
/// appended verbatim to every composed prompt.
pub open spec fn reasoning_text() -> Seq<char> {
    "\n\n# Problem Solving\nYou have up to 5 attempts to complete the request. If a tool call fails or produces unexpected results:\n1. Analyze what went wrong\n2. Consider alternative approaches\n3. Try a different strategy\n\nDo not repeat the same failing action. Reason about the error and adapt your approach."@
}

/// The fixed trailing block, as a string slice.
pub fn reasoning_instructions() -> (r: &'static str)
    ensures
        r@ == reasoning_text(),
{
    "\n\n# Problem Solving\nYou have up to 5 attempts to complete the request. If a tool call fails or produces unexpected results:\n1. Analyze what went wrong\n2. Consider alternative approaches\n3. Try a different strategy\n\nDo not repeat the same failing action. Reason about the error and adapt your approach."
}

/// The text after substituting each placeholder in turn, first to last.
pub open spec fn applied(s: Seq<char>, ps: Seq<(Seq<char>, Seq<char>)>) -> Seq<char>
    decreases ps.len(),
{
    if ps.len() == 0 {
        s
    } else {
        applied(replaced(s, ps[0].0, ps[0].1), ps.drop_first())
    }
}

/// The composed prompt: the tool listing in place of the tool-list
/// placeholder when the template holds one, every supplied placeholder
/// substituted, and the fixed trailing block appended.
pub open spec fn composed(
    template: Seq<char>,
    ps: Seq<(Seq<char>, Seq<char>)>,
    tools: Seq<ToolV>,
) -> Seq<char> {
    let with_tools = if contains_seq(template, "{TOOLS}"@) {
        replaced(template, "{TOOLS}"@, tools_block(tools))
    } else {
        template
    };
    applied(with_tools, ps) + reasoning_text()
}

/// Composes the effective system prompt for an agent.
pub fn compose(template: &str, placeholders: &Vec<Placeholder>, tools: &Vec<Tool>) -> (r: String)
    ensures
        r@ == composed(template@, placeholders.deep_view(), tools.deep_view()),
{
    let ghost ps = placeholders.deep_view();
    let mut prompt: String;
    if contains_str(template, "{TOOLS}") {
        let block = render_tools_block(tools);
        prompt = replace_all(template, "{TOOLS}", block.as_str());
    } else {
        prompt = String::from_str(template);
    }
    let ghost with_tools = prompt@;
    let n: usize = placeholders.len();
    let mut i: usize = 0;
    proof {
        assert(ps.skip(0) =~= ps);
    }
    while i < n
        invariant
            n == placeholders@.len(),
            i <= n,
            ps == placeholders.deep_view(),
            applied(with_tools, ps) == applied(prompt@, ps.skip(i as int)),
        decreases n - i,
    {
        let p = &placeholders[i];
        proof {
            assert(ps.skip(i as int)[0] == ps[i as int]);
            assert(ps.skip(i as int).drop_first() =~= ps.skip(i + 1));
        }
        prompt = replace_all(prompt.as_str(), p.key.as_str(), p.value.as_str());
        i = i + 1;
    }
    proof {
        assert(ps.skip(n as int) =~= Seq::<(Seq<char>, Seq<char>)>::empty());
    }
    prompt.append(reasoning_instructions());
    prompt
}

/// Law: composing a prompt is a pure function of the template, the
/// placeholder values and the tool catalogue: two compositions from
/// identical inputs are identical, byte for byte.
pub proof fn lemma_compose_idempotent(
    a: Seq<char>,
    b: Seq<char>,
    template: Seq<char>,
    ps: Seq<(Seq<char>, Seq<char>)>,
    tools: Seq<ToolV>,
)
    requires
        a == composed(template, ps, tools),
        b == composed(template, ps, tools),
    ensures
        a == b,
{
}

} // verus!

//! The agent execution engine: a bounded state machine that drives one
//! model-backed conversation.
//!
//! The machine owns the conversation and the control state; the caller
//! performs the outside work.  While the machine awaits the model, the caller
//! sends the conversation to the backend and hands the reply to [`AgentLoop::on_reply`];
//! while it handles tools, the caller runs the invocation returned by
//! [`AgentLoop::pending_call`] and hands the result text to
//! [`AgentLoop::on_tool_result`]; when it is done, [`AgentLoop::result_text`] holds the
//! final text.  At most `ceiling` replies are ever consumed, and on
//! exhaustion the machine closes with a degraded best-effort result.

use vstd::prelude::*;
use vstd::string::*;
use crate::message::{Message, MessageV, ToolCall, FunctionCallV, duplicate_calls, tool_turn,
    system_turn, user_turn};

verus! {

/// The number of model round-trips permitted within one loop run.
pub const DEFAULT_MAX_ITERATIONS: u64 = 5;

/// Where the loop stands.
#[derive(Clone, Copy, PartialEq, Eq, Structural, Debug)]
pub enum Phase {
    /// The caller must obtain one reply from the backend.
    AwaitingModel,
    /// The caller must run the current invocation and hand back its result.
    HandlingTools,
    /// The final text is available.
    Done,
}

/// Ghost image of the loop state.
pub ghost struct AgentLoopV {
    pub conversation: Seq<MessageV>,
    pub ceiling: u64,
    pub calls_made: u64,
    pub pending: Seq<FunctionCallV>,
    pub dispatched: int,
    pub outcome: Option<Seq<char>>,
    pub phase: Phase,
}

/// The loop state machine.
pub struct AgentLoop {
    conversation: Vec<Message>,
    ceiling: u64,
    calls_made: u64,
    pending: Vec<ToolCall>,
    dispatched: usize,
    outcome: Option<String>,
    phase: Phase,
}

impl View for AgentLoop {
    type V = AgentLoopV;

    closed spec fn view(&self) -> AgentLoopV {
        AgentLoopV {
            conversation: self.conversation.deep_view(),
            ceiling: self.ceiling,
            calls_made: self.calls_made,
            pending: self.pending.deep_view(),
            dispatched: self.dispatched as int,
            outcome: match &self.outcome {
                Some(s) => Some(s@),
                None => None,
            },
            phase: self.phase,
        }
    }
}

/// Well-formedness of a loop state: the call budget is respected, and each
/// phase carries what it needs.  While a request may still be issued the
/// budget is not yet spent; once the budget is spent the machine never
/// awaits the model again.
pub open spec fn loop_wf(l: AgentLoopV) -> bool {
    &&& l.calls_made <= l.ceiling
    &&& 0 <= l.dispatched <= l.pending.len()
    &&& match l.phase {
        Phase::AwaitingModel => l.calls_made < l.ceiling && l.outcome is None,
        Phase::HandlingTools => l.dispatched < l.pending.len() && l.calls_made >= 1
            && l.outcome is None,
        Phase::Done => l.outcome is Some,
    }
}

/// The text of the last turn that carries text, if any turn does.
pub open spec fn last_text(conv: Seq<MessageV>) -> Option<Seq<char>>
    decreases conv.len(),
{
    if conv.len() == 0 {
        None
    } else {
        match conv.last().content {
            Some(t) => Some(t),
            None => last_text(conv.drop_last()),
        }
    }
}

/// The marker put before a best-effort result on budget exhaustion.
pub open spec fn budget_prefix() -> Seq<char> {
    "(Reached max attempts) "@
}

/// The fixed text returned on budget exhaustion when no turn ever carried
/// text.
pub open spec fn budget_fallback() -> Seq<char> {
    "Unable to complete task after maximum attempts."@
}

/// The degraded result produced on budget exhaustion: the text of the last
/// turn that carried text, marked as a budget-exhaustion result, or a fixed
/// fallback.
pub open spec fn degraded_text(conv: Seq<MessageV>) -> Seq<char> {
    match last_text(conv) {
        Some(t) => budget_prefix() + t,
        None => budget_fallback(),
    }
}

/// The reply's text, or the empty text when it carries none.
pub open spec fn content_or_empty(content: Option<Seq<char>>) -> Seq<char> {
    match content {
        Some(t) => t,
        None => Seq::<char>::empty(),
    }
}

/// Builds the degraded best-effort result for this conversation.
fn degraded_of(conv: &Vec<Message>) -> (r: String)
    ensures
        r@ == degraded_text(conv.deep_view()),
{
    let ghost full = conv.deep_view();
    let mut i: usize = conv.len();
    proof {
        assert(full.take(conv@.len() as int) =~= full);
    }
    while i > 0
        invariant
            full == conv.deep_view(),
            i <= conv@.len(),
            last_text(full) == last_text(full.take(i as int)),
        decreases i,
    {
        proof {
            assert(full.take(i as int).drop_last() =~= full.take(i - 1));
            assert(full.take(i as int).last() == full[i - 1]);
        }
        match &conv[i - 1].content {
            Some(t) => {
                let mut s: String = String::from_str("(Reached max attempts) ");
                s.append(t.as_str());
                return s;
            },
            None => {
                i = i - 1;
            },
        }
    }
    proof {
        assert(full.take(0) =~= Seq::<MessageV>::empty());
    }
    String::from_str("Unable to complete task after maximum attempts.")
}

impl AgentLoop {
    /// A loop over a conversation that already holds its turns; the next
    /// reply consumed will be the first of this run.  With a ceiling of zero
    /// the loop closes at once with the degraded result.
    pub fn resume(conversation: Vec<Message>, ceiling: u64) -> (l: AgentLoop)
        ensures
            loop_wf(l@),
            l@.conversation == conversation.deep_view(),
            l@.ceiling == ceiling,
            l@.calls_made == 0,
            ceiling == 0 ==> l@.phase == Phase::Done && l@.outcome == Some(
                degraded_text(conversation.deep_view()),
            ),
            ceiling >= 1 ==> l@.phase == Phase::AwaitingModel && l@.outcome is None,
    {
        if ceiling == 0 {
            let text = degraded_of(&conversation);
            AgentLoop {
                conversation,
                ceiling,
                calls_made: 0,
                pending: Vec::new(),
                dispatched: 0,
                outcome: Some(text),
                phase: Phase::Done,
            }
        } else {
            AgentLoop {
                conversation,
                ceiling,
                calls_made: 0,
                pending: Vec::new(),
                dispatched: 0,
                outcome: None,
                phase: Phase::AwaitingModel,
            }
        }
    }

    /// A fresh loop seeded with one `system` turn holding the composed
    /// prompt and one `user` turn holding the instruction.
    pub fn start(system_text: String, instruction: String, ceiling: u64) -> (l: AgentLoop)
        ensures
            loop_wf(l@),
            l@.conversation =~= seq![system_turn(system_text@), user_turn(instruction@)],
            l@.ceiling == ceiling,
            l@.calls_made == 0,
            ceiling == 0 ==> l@.phase == Phase::Done && l@.outcome == Some(
                degraded_text(l@.conversation),
            ),
            ceiling >= 1 ==> l@.phase == Phase::AwaitingModel && l@.outcome is None,
    {
        let mut conversation: Vec<Message> = Vec::new();
        conversation.push(Message::system(system_text));
        conversation.push(Message::user(instruction));
        proof {
            assert(conversation.deep_view() =~= seq![
                system_turn(system_text@),
                user_turn(instruction@),
            ]);
        }
        Self::resume(conversation, ceiling)
    }

    /// Where the loop stands.
    pub fn current_phase(&self) -> (p: Phase)
        ensures
            p == self@.phase,
    {
        self.phase
    }

    /// How many replies have been consumed so far.
    pub fn calls_made(&self) -> (n: u64)
        ensures
            n == self@.calls_made,
    {
        self.calls_made
    }

    /// The iteration ceiling of this run.
    pub fn ceiling(&self) -> (n: u64)
        ensures
            n == self@.ceiling,
    {
        self.ceiling
    }

    /// The conversation as it stands.
    pub fn conversation(&self) -> (c: &Vec<Message>)
        ensures
            c.deep_view() == self@.conversation,
    {
        &self.conversation
    }

    /// Hands the conversation back to the caller, closing the machine.
    pub fn into_conversation(self) -> (c: Vec<Message>)
        ensures
            c.deep_view() == self@.conversation,
    {
        self.conversation
    }

    /// The invocation the caller must run next, in the order the reply
    /// carried them.
    pub fn pending_call(&self) -> (c: &ToolCall)
        requires
            loop_wf(self@),
            self@.phase == Phase::HandlingTools,
        ensures
            c@ == self@.pending[self@.dispatched],
    {
        &self.pending[self.dispatched]
    }

    /// The final text of a closed loop.
    pub fn result_text(&self) -> (t: &String)
        requires
            loop_wf(self@),
            self@.phase == Phase::Done,
        ensures
            self@.outcome == Some(t@),
    {
        self.outcome.as_ref().unwrap()
    }

    /// Returns to awaiting the model while budget remains, and otherwise
    /// closes with the degraded result.
    fn advance_or_exhaust(&mut self)
        requires
            1 <= old(self)@.calls_made <= old(self)@.ceiling,
        ensures
            final(self)@.conversation == old(self)@.conversation,
            final(self)@.ceiling == old(self)@.ceiling,
            final(self)@.calls_made == old(self)@.calls_made,
            final(self)@.pending == old(self)@.pending,
            final(self)@.dispatched == old(self)@.dispatched,
            if old(self)@.calls_made < old(self)@.ceiling {
                final(self)@.phase == Phase::AwaitingModel && final(self)@.outcome is None
            } else {
                final(self)@.phase == Phase::Done && final(self)@.outcome == Some(
                    degraded_text(old(self)@.conversation),
                )
            },
    {
        if self.calls_made < self.ceiling {
            self.outcome = None;
            self.phase = Phase::AwaitingModel;
        } else {
            let text = degraded_of(&self.conversation);
            self.outcome = Some(text);
            self.phase = Phase::Done;
        }
    }

    /// Consumes one backend reply: the reply joins the conversation, and the
    /// machine moves to handling its tool invocations, to done on a
    /// content-only reply, or — when a reply without invocations to run
    /// leaves no budget for another request — to the degraded result.
    pub fn on_reply(&mut self, reply: Message)
        requires
            loop_wf(old(self)@),
            old(self)@.phase == Phase::AwaitingModel,
        ensures
            loop_wf(final(self)@),
            final(self)@.ceiling == old(self)@.ceiling,
            final(self)@.calls_made == old(self)@.calls_made + 1,
            final(self)@.conversation == old(self)@.conversation.push(reply@),
            match reply@.tool_calls {
                None => final(self)@.phase == Phase::Done && final(self)@.outcome == Some(
                    content_or_empty(reply@.content),
                ),
                Some(calls) => if calls.len() > 0 {
                    final(self)@.phase == Phase::HandlingTools && final(self)@.pending == calls
                        && final(self)@.dispatched == 0 && final(self)@.outcome is None
                } else if old(self)@.calls_made + 1 < old(self)@.ceiling {
                    final(self)@.phase == Phase::AwaitingModel && final(self)@.outcome is None
                } else {
                    final(self)@.phase == Phase::Done && final(self)@.outcome == Some(
                        degraded_text(old(self)@.conversation.push(reply@)),
                    )
                },
            },
    {
        let ghost old_conv = self.conversation.deep_view();
        let ghost reply_v = reply@;
        match &reply.tool_calls {
            None => {
                let text: String = match &reply.content {
                    Some(t) => t.clone(),
                    None => String::new(),
                };
                self.conversation.push(reply);
                self.calls_made = self.calls_made + 1;
                self.outcome = Some(text);
                self.phase = Phase::Done;
                proof {
                    assert(self.conversation.deep_view() =~= old_conv.push(reply_v));
                }
            },
            Some(calls) => {
                let fresh = duplicate_calls(calls);
                self.conversation.push(reply);
                self.calls_made = self.calls_made + 1;
                if fresh.len() > 0 {
                    self.pending = fresh;
                    self.dispatched = 0;
                    self.outcome = None;
                    self.phase = Phase::HandlingTools;
                } else {
                    self.advance_or_exhaust();
                }
                proof {
                    assert(self.conversation.deep_view() =~= old_conv.push(reply_v));
                }
            },
        }
    }

    /// Consumes the result of the invocation at hand: one `tool` turn
    /// holding exactly this text joins the conversation.  After the last
    /// invocation of the reply the machine awaits the model again while
    /// budget remains, and otherwise closes with the degraded result.
    pub fn on_tool_result(&mut self, text: String)
        requires
            loop_wf(old(self)@),
            old(self)@.phase == Phase::HandlingTools,
        ensures
            loop_wf(final(self)@),
            final(self)@.ceiling == old(self)@.ceiling,
            final(self)@.calls_made == old(self)@.calls_made,
            final(self)@.pending == old(self)@.pending,
            final(self)@.dispatched == old(self)@.dispatched + 1,
            final(self)@.conversation == old(self)@.conversation.push(tool_turn(text@)),
            if old(self)@.dispatched + 1 < old(self)@.pending.len() {
                final(self)@.phase == Phase::HandlingTools && final(self)@.outcome is None
            } else if old(self)@.calls_made < old(self)@.ceiling {
                final(self)@.phase == Phase::AwaitingModel && final(self)@.outcome is None
            } else {
                final(self)@.phase == Phase::Done && final(self)@.outcome == Some(
                    degraded_text(old(self)@.conversation.push(tool_turn(text@))),
                )
            },
    {
        let ghost old_conv = self.conversation.deep_view();
        let ghost text_v = text@;
        self.conversation.push(Message::tool(text));
        let n: usize = self.pending.len();
        proof {
            assert(self.pending.deep_view().len() == self.pending@.len());
            assert(self.dispatched < n);
        }
        self.dispatched = self.dispatched + 1;
        proof {
            assert(self.conversation.deep_view() =~= old_conv.push(tool_turn(text_v)));
        }
        if self.dispatched == n {
            self.advance_or_exhaust();
        }
    }

    /// Handles every remaining invocation of the current reply at once: the
    /// results join the conversation as `tool` turns, one per invocation and
    /// in the same order.
    pub fn on_tool_results(&mut self, results: Vec<String>)
        requires
            loop_wf(old(self)@),
            old(self)@.phase == Phase::HandlingTools,
            old(self)@.dispatched + results.deep_view().len() == old(self)@.pending.len(),
        ensures
            loop_wf(final(self)@),
            final(self)@.ceiling == old(self)@.ceiling,
            final(self)@.calls_made == old(self)@.calls_made,
            final(self)@.pending == old(self)@.pending,
            final(self)@.dispatched == old(self)@.pending.len(),
            final(self)@.conversation == old(self)@.conversation + results.deep_view().map_values(
                |t: Seq<char>| tool_turn(t),
            ),
            if old(self)@.calls_made < old(self)@.ceiling {
                final(self)@.phase == Phase::AwaitingModel && final(self)@.outcome is None
            } else {
                final(self)@.phase == Phase::Done && final(self)@.outcome == Some(
                    degraded_text(
                        old(self)@.conversation + results.deep_view().map_values(
                            |t: Seq<char>| tool_turn(t),
                        ),
                    ),
                )
            },
    {
        let ghost old_self = self@;
        let ghost turns = results.deep_view().map_values(|t: Seq<char>| tool_turn(t));
        let n: usize = results.len();
        let mut k: usize = 0;
        proof {
            assert(old_self.conversation + turns.take(0) =~= old_self.conversation);
        }
        while k < n
            invariant
                n == results@.len(),
                k <= n,
                n >= 1,
                turns == results.deep_view().map_values(|t: Seq<char>| tool_turn(t)),
                turns.len() == n,
                self@.ceiling == old_self.ceiling,
                self@.calls_made == old_self.calls_made,
                self@.pending == old_self.pending,
                self@.dispatched == old_self.dispatched + k,
                old_self.dispatched + n == old_self.pending.len(),
                self@.conversation == old_self.conversation + turns.take(k as int),
                old_self.calls_made >= 1,
                old_self.calls_made <= old_self.ceiling,
                k < n ==> self@.phase == Phase::HandlingTools && self@.outcome is None,
                loop_wf(self@),
                k == n ==> if old_self.calls_made < old_self.ceiling {
                    self@.phase == Phase::AwaitingModel && self@.outcome is None
                } else {
                    self@.phase == Phase::Done && self@.outcome == Some(
                        degraded_text(old_self.conversation + turns.take(k as int)),
                    )
                },
            decreases n - k,
        {
            let text = results[k].clone();
            proof {
                assert(turns[k as int] == tool_turn(results.deep_view()[k as int]));
                assert(results.deep_view()[k as int] == results@[k as int]@);
                assert((old_self.conversation + turns.take(k as int)).push(turns[k as int])
                    =~= old_self.conversation + turns.take(k + 1));
            }
            self.on_tool_result(text);
            k = k + 1;
        }
        proof {
            assert(turns.take(n as int) =~= turns);
        }
    }
}

/// Law: within one run the loop consumes at most `ceiling` backend replies,
/// and once the budget is spent it never awaits the model again — there is
/// no state from which a further request would be issued.
pub proof fn lemma_transport_calls_bounded(l: AgentLoopV)
    requires
        loop_wf(l),
    ensures
        l.calls_made <= l.ceiling,
        l.calls_made == l.ceiling ==> l.phase != Phase::AwaitingModel,
{
}

} // verus!

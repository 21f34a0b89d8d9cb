//! The chat transport's data model: the single backend request assembled
//! from a conversation and a tool catalogue, the reply envelope, and the
//! errors that abort one top-level instruction.
//!
//! The request is always non-streaming: the loop requires a complete reply
//! before proceeding.  Sending the request and reading the reply are outside
//! work; the caller maps what went wrong onto [`TransportError`].

use vstd::prelude::*;
use vstd::string::*;
use crate::message::{duplicate_messages, Message, MessageV};
use crate::strings::dec_digits;
use crate::tool::{Tool, ToolV};

verus! {

/// One backend chat request.
pub struct ChatRequest {
    pub model: String,
    pub messages: Vec<Message>,
    pub stream: bool,
    pub tools: Option<Vec<Tool>>,
}

/// Ghost image of a backend request.
pub ghost struct ChatRequestV {
    pub model: Seq<char>,
    pub messages: Seq<MessageV>,
    pub stream: bool,
    pub tools: Option<Seq<ToolV>>,
}

impl View for ChatRequest {
    type V = ChatRequestV;

    open spec fn view(&self) -> ChatRequestV {
        ChatRequestV {
            model: self.model@,
            messages: self.messages.deep_view(),
            stream: self.stream,
            tools: self.tools.deep_view(),
        }
    }
}

/// The reply envelope: exactly one assistant turn per request.
pub struct ChatResponse {
    pub message: Message,
}

impl View for ChatResponse {
    type V = MessageV;

    open spec fn view(&self) -> MessageV {
        self.message@
    }
}

/// Assembles the backend request for one model round-trip.  Streaming is
/// always off.
pub fn build_chat_request(model: &str, messages: &Vec<Message>, tools: Option<Vec<Tool>>) -> (r:
    ChatRequest)
    ensures
        r@.model == model@,
        r@.messages =~= messages.deep_view(),
        r@.stream == false,
        r@.tools == tools.deep_view(),
{
    ChatRequest {
        model: String::from_str(model),
        messages: duplicate_messages(messages),
        stream: false,
        tools,
    }
}

/// A failure to obtain one complete reply from the backend.  It aborts the
/// current top-level instruction; nothing here is retried.
pub enum TransportError {
    /// The request could not be sent or no reply arrived; the cause in
    /// words.
    Network(String),
    /// The backend answered with a non-success status.
    Status(u16),
    /// The reply body could not be read as one chat message; the cause in
    /// words.
    Malformed(String),
}

/// Ghost image of a transport failure.
pub ghost enum TransportErrorV {
    Network(Seq<char>),
    Status(u16),
    Malformed(Seq<char>),
}

impl View for TransportError {
    type V = TransportErrorV;

    open spec fn view(&self) -> TransportErrorV {
        match self {
            TransportError::Network(e) => TransportErrorV::Network(e@),
            TransportError::Status(c) => TransportErrorV::Status(*c),
            TransportError::Malformed(e) => TransportErrorV::Malformed(e@),
        }
    }
}

/// How a transport failure reads when surfaced to the user.
pub open spec fn transport_error_text(e: TransportErrorV) -> Seq<char> {
    match e {
        TransportErrorV::Network(c) => "transport error: "@ + c,
        TransportErrorV::Status(c) => "backend returned status "@ + dec_digits(c as nat),
        TransportErrorV::Malformed(c) => "malformed backend reply: "@ + c,
    }
}

impl TransportError {
    /// The failure, in words.
    pub fn describe(&self) -> (r: String)
        ensures
            r@ == transport_error_text(self@),
    {
        match self {
            TransportError::Network(c) => {
                let mut s: String = String::from_str("transport error: ");
                s.append(c.as_str());
                s
            },
            TransportError::Status(c) => {
                let mut s: String = String::from_str("backend returned status ");
                s.append(crate::strings::u64_to_string(*c as u64).as_str());
                s
            },
            TransportError::Malformed(c) => {
                let mut s: String = String::from_str("malformed backend reply: ");
                s.append(c.as_str());
                s
            },
        }
    }
}

} // verus!

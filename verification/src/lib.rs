//! A multi-agent orchestration layer in front of a chat-completion backend.
//!
//! One coordinating agent (the Queen) holds the conversation with the user and
//! delegates sub-tasks to subordinate workers; every agent drives its own
//! bounded tool-use loop against the backend.  The loop, the prompt composer,
//! the tool catalogues and the dispatch decisions are verified; the HTTP
//! transport and the tool side effects live outside the library and feed the
//! loop plain values.

pub mod agent_loop;
pub mod compose;
pub mod message;
pub mod queen;
pub mod registry;
pub mod strings;
pub mod tool;
pub mod transport;
pub mod worker;
pub mod workers;

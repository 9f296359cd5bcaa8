//! Turn-taking between a language model and the tools that it may call.
//!
//! A [`swarm::Swarm`] holds a registry of tools. A run of a conversation
//! goes step by step: the library says what to ask the model, the caller asks,
//! and the library takes the answer in: it carries out the tool calls, merges
//! the variables that the tools set, and lets a tool hand the conversation
//! over to another agent.

pub mod assoc;
pub mod context;
pub mod decode;
pub mod dispatch;
pub mod json;
pub mod laws;
pub mod normalize;
pub mod registry;
pub mod run;
pub mod swarm;
pub mod types;

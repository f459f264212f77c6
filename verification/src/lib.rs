//! Context-assembly and reply-decision engine for a multi-channel group-chat
//! agent.
//!
//! The library models the agent's persistent state (channels, messages,
//! system prompts) and verifies the logic that decides when and how the agent
//! speaks: bounded context-window selection and advancement, prompt
//! construction with reply-threading previews, the structured yes/no judgment
//! wire format, the bounded self-repairing judge loop, and the transactional
//! message flow. Platform, database and model-provider I/O live outside the
//! library and hand it plain values.

pub mod judge;
pub mod judgment;
pub mod model;
pub mod commands;
pub mod flow;
pub mod prompt;
pub mod store;
pub mod window;

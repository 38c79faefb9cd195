//! The reasoning-and-acting agent: reading the model's replies, keeping the
//! conversation, the tool registry and the per-session task queue.
pub mod cycle;
pub mod docx;
pub mod files;
pub mod legacy;
pub mod parse;
pub mod queue;
pub mod registry;
pub mod render;
pub mod tools;

pub use parse::{agent_action_parts, parse_agent_response};

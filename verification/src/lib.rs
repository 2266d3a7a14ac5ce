//! Crow: the verified kernel of a small autonomous coding agent.
//!
//! The library holds the agent's decision logic: the provider stream
//! accumulator, history reconstruction from the session log, approval
//! policy, slash-command parsing, the read tool's text formatting, the
//! TUI chat model, and the layered configuration rules. I/O, async
//! plumbing and terminal rendering live in the `app/` crate around it.

pub mod text;
pub mod ids;
pub mod json;
pub mod event;
pub mod message;
pub mod stream;
pub mod read;
pub mod tool;
pub mod commands;
pub mod policy;
pub mod session_entry;
pub mod agent;
pub mod provider;
pub mod ui;
pub mod tui;
pub mod bash;
pub mod config;
pub mod context;
pub mod mcp;
pub mod server;

//! Verified core of an MCP server configuration manager for OpenCode.
pub mod json;
pub mod text;
pub mod models;
pub mod validation;
pub mod opencode;
pub mod paths;
pub mod ui_text;
pub mod app;
pub mod storage;
pub mod laws;

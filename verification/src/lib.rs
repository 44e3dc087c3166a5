//! Verified core of the Dart and Flutter extension for Zed: debug adapter
//! configuration, task-to-scenario conversion, VM service URI handling,
//! Flutter device listing and the text that the slash commands produce.

pub mod adapter;
pub mod completion;
pub mod devices;
pub mod json;
pub mod lsp;
pub mod mcp;
pub mod output;
pub mod paths;
pub mod scenario;
pub mod slash;
pub mod text;
pub mod vmservice;

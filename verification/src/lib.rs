//! Command-resolution pipeline: builds the outbound prompt and tool schema,
//! decodes tool-call responses into shell command strings, and stages each
//! command on the OS clipboard for the user to paste.

pub mod config;
pub mod extract;
pub mod json;
pub mod prompt;
pub mod request;
pub mod schema;
pub mod staging;

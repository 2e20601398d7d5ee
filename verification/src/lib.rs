//! Browser underlays: webviews composited behind the terminal, and the
//! agent-facing control surface that drives them.
pub mod settings;
pub mod state;
pub mod render;
pub mod workspace;
pub mod lifecycle;
pub mod laws;
pub mod json;
pub mod protocol;
pub mod mcp;
pub mod encoding;
pub mod control;
pub mod binding;

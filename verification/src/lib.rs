//! Verified core of a terminal chat client: pickers and their actions, the
//! conversation and its streams, tool calls checked against their schemas,
//! inspect views, the input area, and the text handling they rely on.

pub mod text;
pub mod inspect;
pub mod order;
pub mod theme;
pub mod picker;
pub mod picker_sort;
pub mod json;
pub mod session;
pub mod picker_meta;
pub mod picker_open;
pub mod model_picker;
pub mod picker_actions;
pub mod mcp_servers;
pub mod tool_inspect;
pub mod tool_flow;
pub mod actions;
pub mod stream_errors;
pub mod mcp_prompt;
pub mod conversation;
pub mod sampling;
pub mod layout;
pub mod laws;
pub mod ui_state;
pub mod stream_events;
pub mod schema_check;
pub mod prewrap;

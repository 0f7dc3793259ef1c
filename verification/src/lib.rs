//! A connector that offers a game panel's management tools over the Model
//! Context Protocol: JSON-RPC messages in, JSON-RPC replies out.
//!
//! The crate decides and the application around it acts. Where a tool needs the
//! database, a node's daemon or the plugin catalog, the crate returns the step
//! to take, and the application hands the outcome back.

pub mod argument_laws;
pub mod auth;
pub mod call_laws;
pub mod catalog;
pub mod clock;
pub mod content;
pub mod execute;
pub mod extension;
pub mod ids;
pub mod json;
pub mod laws;
pub mod members;
pub mod outcome;
pub mod plugin_laws;
pub mod progress;
pub mod protocol_laws;
pub mod readable;
pub mod records;
pub mod render;
pub mod result_laws;
pub mod rpc;
pub mod secret;
pub mod sql;
pub mod step;
pub mod text;
pub mod text_laws;
pub mod tool;
pub mod tool_laws;
pub mod view_laws;

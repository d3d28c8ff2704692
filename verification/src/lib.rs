//! Compact rendering of ast-index JSON responses and the request handling of
//! its tool server, verified.

pub mod catalog;
pub mod command_laws;
pub mod float;
pub mod format;
pub mod json;
pub mod jsontext;
pub mod laws;
pub mod layout_laws;
pub mod rpc;
pub mod size;
pub mod text;
pub mod tools;

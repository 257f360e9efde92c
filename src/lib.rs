//! Interprets the JSON documents that external plugin programs print: the
//! declarative element tree becomes an abstract widget tree, and the optional
//! follow-up action is handed to the host.

pub mod encode;
pub mod json;
pub mod model;
pub mod parse;
pub mod plugin;
pub mod widget;

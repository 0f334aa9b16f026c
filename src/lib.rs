//! A command-line chat assistant: commands, template storage rules, chat
//! requests and the rendering of a streamed answer, with their contracts.
pub mod error;
pub mod template;
pub mod request;
pub mod stream;
pub mod command;
pub mod api;

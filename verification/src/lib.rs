//! Core logic of a chat-platform bot that bridges a small command grammar to
//! an external text-generation service.
//!
//! The library holds everything with decision content: recognizing commands in
//! message text, classifying the HTTP outcome of a generation call, splitting
//! oversized replies into segments, building the JSON request body, and the
//! exact ordered sequence of user-visible effects (reaction markers and posted
//! segments) a message gives rise to. The surrounding binary only performs the
//! I/O these decisions call for.

pub mod command;
pub mod formatter;
pub mod outcome;
pub mod request;
pub mod router;
pub mod text;

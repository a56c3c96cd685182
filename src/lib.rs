//! Relocation and deletion of chat message history: link parsing, range
//! resolution, deletion planning, relocation payloads and the visibility guard.

pub mod error;
pub mod link;
pub mod range;
pub mod deletion;
pub mod text;
pub mod progress;
pub mod relocation;
pub mod guard;
pub mod run;
pub mod commands;

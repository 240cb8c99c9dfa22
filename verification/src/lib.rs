//! Recognises compiler invocations in the output of a build and writes them,
//! one by one, as the entries of a `compile_commands.json` array.

pub mod classify;
pub mod json;
pub mod pattern;
pub mod pipeline;
pub mod reason;
pub mod record;
pub mod sink;
pub mod text;

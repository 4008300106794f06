//! A slash-command handler for the `jake` task runner: it turns a recipe
//! name typed after the command into the invocation text that the host
//! editor inserts, together with one labeled section spanning that text.

pub mod slash_command;

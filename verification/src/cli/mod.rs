//! The game client's command-line and REPL front end.

pub mod args;
pub mod lookup;
pub mod names;
pub mod output;
pub mod play;
pub mod prompt;
pub mod repl;
pub mod short_ids;

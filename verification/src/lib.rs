//! Verified command logic of the `maw grok` subcommand: argument dispatch,
//! reading the xAI session file, interpreting the xAI API replies and driving
//! the video-generation polling loop. The I/O itself (processes, files,
//! network, timers) is performed by the caller, which hands the outcomes in.

pub mod text;
pub mod json;
pub mod output;
pub mod session;
pub mod dispatch;
pub mod generation;
pub mod laws;

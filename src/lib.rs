//! Interactive process execution engine: script composition, terminal
//! output filtering, the shared output log, and the session state that the
//! controlling side polls.

pub mod ansi;
pub mod catalog;
pub mod launch;
pub mod logname;
pub mod output;
pub mod script;
pub mod session;
mod text;
pub mod theme;

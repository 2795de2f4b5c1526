//! Backend logic of a small project-scaffolding tool: a dispatcher that maps a
//! framework tag to the fixed shell command that scaffolds a starter project,
//! interprets what came back from running that command, and decides how a
//! terminal window is opened on each platform.
//!
//! Spawning the shell process itself is left to the caller; this crate holds
//! the decisions around it: which command to run, what each outcome means, and
//! the exact message each error carries.

pub mod dispatch;
pub mod errors;
pub mod terminal;

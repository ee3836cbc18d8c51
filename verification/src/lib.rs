//! The core of an interactive shell: one line of text in, one text out.
//!
//! The library classifies a line against a fixed table of built-in commands,
//! says which single request to the operating system the command needs, and
//! turns the system's answer into the text that the user sees. It performs no
//! input or output itself: a front end carries each request out and hands the
//! answer back.

pub mod bridge;
pub mod clock;
pub mod command;
pub mod dispatch;
pub mod handlers;
pub mod line;
pub mod repl;
pub mod reply;
pub mod session;
pub mod step;
pub mod text;

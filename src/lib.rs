//! Decision core of a small desktop application launcher.
//!
//! The window toolkit, dialogs and the operating system's process creation live
//! outside this library. What stands here is what the shell decides: how its
//! state moves in answer to the user's input, what it asks the outside world to
//! do, and the text it shows when a launch fails.
pub mod fonts;
pub mod notice;
pub mod shell;

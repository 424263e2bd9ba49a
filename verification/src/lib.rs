//! A two-line prompt for zsh.
//!
//! The prompt shows the host, the directory, how the last command ended and how
//! long it took, and the state of the git repository one stands in. This library
//! puts it together from what its caller has found out; it reads nothing itself.

pub mod ansi;
pub mod decimal;
pub mod duration;
pub mod git;
pub mod path;
pub mod prompt;
pub mod screen;
pub mod single;
pub mod text;
pub mod zsh;

//! Launching a child process held before it runs its target program, so that
//! an observer can attach to its pid first, and the decisions of the
//! handshake that releases it.

pub mod wire;
pub mod handshake;
pub mod process;
pub mod argv;
pub mod fallback;

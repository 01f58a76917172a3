//! Persistent remote shell sessions over SSH and tmux: argument
//! interpretation, remote command construction and session orchestration.

pub mod cli;
pub mod config;
pub mod error;
pub mod session;
pub mod ssh;
pub mod text;
pub mod tmux;
pub mod ui;
pub mod util;

//! Process supervision and network discovery for a desktop shell.

pub mod commands;
pub mod common;
pub mod json;
pub mod remote_access;
pub mod scanner;
pub mod server;
pub mod supervisor;
pub mod tailscale;
pub mod text;
pub mod tunnel;
pub mod updater;
pub mod window;

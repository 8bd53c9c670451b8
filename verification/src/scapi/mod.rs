//! The bot engine: commands, their registry and the session that feeds it.

pub mod addons;
pub mod command;
pub mod context;
pub mod permissions;
pub mod registry;
pub mod session;

//! Extensions that others write for a program.

pub mod plugin;

//! Who may run a command.

use vstd::prelude::*;

verus! {

/// The rank that a command asks of its caller.
#[derive(Debug, Clone, Copy, PartialEq, Eq, Structural)]
pub enum PermissionLevel {
    Custom,
    All,
    Trusted,
    Admin,
    Owner,
}

/// The users of each rank.
#[derive(Debug, Clone, PartialEq, Eq)]
pub struct PermissionList {
    pub trusted: Vec<String>,
    pub admin: Vec<String>,
    pub custom: Vec<String>,
    pub owner: String,
}

} // verus!

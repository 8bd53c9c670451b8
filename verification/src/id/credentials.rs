//! The credentials that a login leaves on the machine.

use vstd::prelude::*;

verus! {

/// A user name and the token that stands for the login.
#[derive(Debug, Clone, Default, PartialEq, Eq)]
pub struct StrawberryIdCredentials {
    pub username: String,
    pub token: String,
}

} // verus!

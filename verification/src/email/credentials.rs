//! The account that sends the mail.

use vstd::prelude::*;

verus! {

/// An address and the password to it.
#[derive(Debug, Clone, PartialEq, Eq)]
pub struct Credentials {
    pub email: String,
    pub password: String,
}

impl Credentials {
    /// Credentials made of an address and a password.
    pub fn new(email: &str, password: &str) -> (r: Self)
        ensures
            r.email@ == email@,
            r.password@ == password@,
    {
        Credentials { email: String::from_str(email), password: String::from_str(password) }
    }
}

} // verus!

//! Credentials attached to requests as HTTP Basic authentication.

use vstd::prelude::*;
use vstd::string::StringExecFns;

verus! {

/// A username and password pair.
#[derive(Debug, Clone, PartialEq, Eq)]
pub struct Authorization {
    username: String,
    password: String,
}

impl Authorization {
    /// The username these credentials carry.
    pub closed spec fn spec_username(&self) -> Seq<char> {
        self.username@
    }

    /// The password these credentials carry.
    pub closed spec fn spec_password(&self) -> Seq<char> {
        self.password@
    }

    pub fn new(username: &str, password: &str) -> (r: Self)
        ensures
            r.spec_username() == username@,
            r.spec_password() == password@,
    {
        Authorization { username: username.to_owned(), password: password.to_owned() }
    }

    pub fn username(&self) -> (r: &str)
        ensures
            r@ == self.spec_username(),
    {
        self.username.as_str()
    }

    pub fn password(&self) -> (r: &str)
        ensures
            r@ == self.spec_password(),
    {
        self.password.as_str()
    }
}

} // verus!

//! The account record.

use vstd::prelude::*;
use crate::email::Email;
use crate::password::HashedPassword;

verus! {

/// The mathematical content of an account record.
pub ghost struct UserV {
    pub email: Seq<char>,
    pub password_hash: Seq<char>,
    pub requires_2fa: bool,
}

/// An account: identity, stored password hash, second-factor policy.
/// Immutable once created; only the external account-deletion flow
/// destroys it.
#[derive(Debug, PartialEq, Eq)]
pub struct User {
    pub email: Email,
    pub password: HashedPassword,
    pub requires_2fa: bool,
}

impl View for User {
    type V = UserV;

    open spec fn view(&self) -> UserV {
        UserV {
            email: self.email@,
            password_hash: self.password@,
            requires_2fa: self.requires_2fa,
        }
    }
}

impl Clone for User {
    fn clone(&self) -> (r: Self)
        ensures
            r@ == self@,
    {
        User {
            email: self.email.clone(),
            password: self.password.clone(),
            requires_2fa: self.requires_2fa,
        }
    }
}

impl User {
    pub fn new(email: Email, password: HashedPassword, requires_2fa: bool) -> (r: Self)
        ensures
            r@ == (UserV { email: email@, password_hash: password@, requires_2fa }),
    {
        User { email, password, requires_2fa }
    }
}

} // verus!

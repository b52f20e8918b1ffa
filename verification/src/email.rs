//! The validated email address type.
//!
//! Whether a string is a syntactically valid address is decided by the
//! validator crate; the outcome is named by the uninterpreted function
//! `is_valid_email`, and `Email::parse` accepts exactly those strings.

use vstd::prelude::*;
use vstd::string::*;

verus! {

/// Names the outcome of the validator crate's email check: whether the
/// string is a syntactically valid address. The check is a deterministic
/// function of the string.
pub uninterp spec fn is_valid_email(s: Seq<char>) -> bool;

/// Relies on validator's `ValidateEmail` for `&str`: the HTML5-shaped
/// email syntax check, deterministic in the string. An empty string is
/// rejected outright by its first test.
#[verifier::external_body]
fn check_email(s: &str) -> (r: bool)
    ensures
        r == is_valid_email(s@),
        s@.len() == 0 ==> !r,
{
    validator::ValidateEmail::validate_email(&s)
}

/// A syntactically valid email address, or a raw address under test.
#[derive(Debug, PartialEq, Eq, Hash)]
pub struct Email(pub String);

impl View for Email {
    type V = Seq<char>;

    open spec fn view(&self) -> Seq<char> {
        self.0@
    }
}

impl Clone for Email {
    fn clone(&self) -> (r: Self)
        ensures
            r@ == self@,
    {
        Email(self.0.clone())
    }
}

impl Email {
    /// Accepts exactly the syntactically valid addresses.
    pub fn parse(email_str: String) -> (r: Result<Email, String>)
        ensures
            r is Ok <==> is_valid_email(email_str@),
            r matches Ok(e) ==> e@ == email_str@,
    {
        if check_email(email_str.as_str()) {
            Ok(Email(email_str))
        } else {
            Err("Invalid email: ".to_owned().concat(email_str.as_str()))
        }
    }

    pub fn as_str(&self) -> (r: &str)
        ensures
            r@ == self@,
    {
        self.0.as_str()
    }
}

} // verus!

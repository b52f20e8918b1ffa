//! Second-factor value types: the login attempt identifier and the
//! six-digit code.
//!
//! An attempt identifier is a UUID-shaped string; which strings those
//! are is decided by the uuid crate and named by the uninterpreted
//! function `is_uuid`. A code is exactly six decimal digits.

use vstd::prelude::*;
use vstd::string::*;
use crate::codec::{is_digit_char, is_digit_seq, dec_value, str_of_u64, lemma_str_of_u64_value};
use crate::errors::TwoFaError;

verus! {

/// Names which strings the uuid crate accepts as a UUID, a
/// deterministic function of the string.
pub uninterp spec fn is_uuid(s: Seq<char>) -> bool;

/// Relies on `uuid::Uuid::parse_str`: whether the string is a
/// well-formed UUID.
#[verifier::external_body]
fn check_uuid(s: &str) -> (r: bool)
    ensures
        r == is_uuid(s@),
{
    uuid::Uuid::parse_str(s).is_ok()
}

/// Relies on `uuid::Uuid::new_v4` and its hyphenated rendering: a fresh
/// random UUID always renders as a string that `parse_str` accepts. The
/// value is random, so nothing further is stated.
#[verifier::external_body]
fn generate_uuid_string() -> (r: String)
    ensures
        is_uuid(r@),
{
    uuid::Uuid::new_v4().to_string()
}

/// Relies on `rand::random_range`: a uniform draw inside the given
/// nonempty range. Only the bounds are stated; the value is random.
#[verifier::external_body]
fn random_code_number() -> (r: u32)
    ensures
        100000 <= r < 1000000,
{
    rand::random_range(100_000u32..1_000_000u32)
}

/// A unique, unguessable identifier for one login attempt that awaits
/// its second factor.
#[derive(Debug, PartialEq, Eq)]
pub struct LoginAttemptId(String);

impl View for LoginAttemptId {
    type V = Seq<char>;

    closed spec fn view(&self) -> Seq<char> {
        self.0@
    }
}

impl Clone for LoginAttemptId {
    fn clone(&self) -> (r: Self)
        ensures
            r@ == self@,
    {
        LoginAttemptId(self.0.clone())
    }
}

impl LoginAttemptId {
    /// Accepts exactly the UUID-shaped strings.
    pub fn parse(id: String) -> (r: Result<Self, String>)
        ensures
            r is Ok <==> is_uuid(id@),
            r matches Ok(a) ==> a@ == id@,
    {
        if check_uuid(id.as_str()) {
            Ok(LoginAttemptId(id))
        } else {
            Err(id.concat(" is not a valid uuid"))
        }
    }

    pub fn as_str(&self) -> (r: &str)
        ensures
            r@ == self@,
    {
        self.0.as_str()
    }
}

impl Default for LoginAttemptId {
    /// A fresh random attempt identifier.
    fn default() -> (r: Self)
        ensures
            is_uuid(r@),
    {
        LoginAttemptId(generate_uuid_string())
    }
}

/// A second-factor code: exactly six decimal digits.
pub open spec fn spec_code_ok(s: Seq<char>) -> bool {
    s.len() == 6 && is_digit_seq(s)
}

/// The six-digit second-factor code sent to the user out of band.
#[derive(Debug, PartialEq, Eq)]
pub struct TwoFaCode(String);

impl View for TwoFaCode {
    type V = Seq<char>;

    closed spec fn view(&self) -> Seq<char> {
        self.0@
    }
}

impl Clone for TwoFaCode {
    fn clone(&self) -> (r: Self)
        ensures
            r@ == self@,
    {
        TwoFaCode(self.0.clone())
    }
}

impl TwoFaCode {
    /// Whether the string is nonempty and all decimal digits.
    pub fn is_digits(s: &str) -> (r: bool)
        ensures
            r == (s@.len() > 0 && is_digit_seq(s@)),
    {
        let n = s.unicode_len();
        if n == 0 {
            return false;
        }
        let mut i: usize = 0;
        while i < n
            invariant
                0 <= i <= n,
                n == s@.len(),
                is_digit_seq(s@.subrange(0, i as int)),
            decreases n - i,
        {
            let c = s.get_char(i);
            let cv = c as u32;
            if cv < 48 || cv > 57 {
                assert(!is_digit_char(s@[i as int]));
                return false;
            }
            proof {
                let p = s@.subrange(0, i as int);
                let q = s@.subrange(0, i + 1 as int);
                assert(forall|j: int| 0 <= j < q.len() ==> q[j] == if j < i {
                    p[j]
                } else {
                    s@[i as int]
                });
            }
            i += 1;
        }
        proof {
            assert(s@.subrange(0, n as int) =~= s@);
        }
        true
    }

    /// Accepts exactly the six-digit codes.
    pub fn parse(code: String) -> (r: Result<Self, TwoFaError>)
        ensures
            r is Ok <==> spec_code_ok(code@),
            r matches Ok(c) ==> c@ == code@,
    {
        if code.as_str().unicode_len() != 6 {
            return Err(TwoFaError::InvalidCode);
        }
        if !Self::is_digits(code.as_str()) {
            return Err(TwoFaError::InvalidCode);
        }
        Ok(TwoFaCode(code))
    }

    pub fn as_str(&self) -> (r: &str)
        ensures
            r@ == self@,
    {
        self.0.as_str()
    }
}

/// The decimal rendering of a number in the six-digit range has exactly
/// six digits.
proof fn lemma_six_digit_len(n: u64)
    requires
        100000 <= n < 1000000,
    ensures
        str_of_u64(n).len() == 6,
{
    let n1 = n / 10;
    let n2 = n1 / 10;
    let n3 = n2 / 10;
    let n4 = n3 / 10;
    let n5 = n4 / 10;
    assert(str_of_u64((n5) as u64).len() == 1);
    assert(str_of_u64((n4) as u64).len() == 2);
    assert(str_of_u64((n3) as u64).len() == 3);
    assert(str_of_u64((n2) as u64).len() == 4);
    assert(str_of_u64((n1) as u64).len() == 5);
}

impl Default for TwoFaCode {
    /// A fresh random six-digit code; its numeric value lies in the full
    /// six-digit range, so it never carries a leading zero.
    fn default() -> (r: Self)
        ensures
            spec_code_ok(r@),
            100000 <= dec_value(r@) <= 999999,
    {
        let n = random_code_number();
        let s = crate::codec::u64_to_string(n as u64);
        proof {
            lemma_str_of_u64_value(n as u64);
            lemma_six_digit_len(n as u64);
        }
        TwoFaCode(s)
    }
}

} // verus!

//! Password policy, hashing and verification.
//!
//! A raw password is accepted when it has at least eight characters.
//! Hashing and verification are done by the argon2 crate; whether a hash
//! string verifies a candidate password is named by the uninterpreted
//! function `verifies`, and the well-formedness of a stored hash string
//! by `is_phc_hash`.

use vstd::prelude::*;
use vstd::string::*;

verus! {

/// Names the outcome of argon2 password verification: whether the
/// candidate password matches the hash string. The hash string carries
/// its own salt and parameters, so the outcome is a deterministic
/// function of the two strings alone.
pub uninterp spec fn verifies(hash: Seq<char>, password: Seq<char>) -> bool;

/// Names which strings are well-formed PHC hash strings, the format
/// accepted by `argon2::PasswordHash::new`.
pub uninterp spec fn is_phc_hash(s: Seq<char>) -> bool;

/// The fixed hashing policy, visible as the leading segments of every
/// hash this library produces: Argon2id, version 19, memory cost 15000,
/// time cost 2, parallelism 1.
pub open spec fn spec_policy_hash(s: Seq<char>) -> bool {
    s.len() >= 31 && s.subrange(0, 31) == "$argon2id$v=19$m=15000,t=2,p=1$"@
}

/// The password policy: at least eight characters.
pub open spec fn spec_password_ok(s: Seq<char>) -> bool {
    s.len() >= 8
}

/// Checks the password policy.
pub fn validate_password(s: &str) -> (r: bool)
    ensures
        r == spec_password_ok(s@),
{
    s.unicode_len() >= 8
}

/// Why a raw password could not be turned into a stored hash.
#[derive(Debug, PartialEq, Eq, Structural, Clone, Copy)]
pub enum PasswordParseError {
    /// The raw password breaks the policy.
    InvalidPassword,
    /// The policy held but the hash computation reported an error.
    HashingFailed,
}

/// Relies on argon2's `hash_password` with the Argon2id algorithm and
/// fixed cost parameters: a returned hash string verifies the hashed
/// password, is a well-formed PHC string, and renders the algorithm,
/// version and cost parameters as its leading segments. The salt is
/// drawn from the system's randomness, so only what holds of every
/// outcome is stated.
#[verifier::external_body]
fn compute_password_hash(password: &str) -> (r: Option<String>)
    ensures
        r matches Some(h) ==> verifies(h@, password@) && is_phc_hash(h@) && spec_policy_hash(h@),
{
    let salt = argon2::password_hash::SaltString::generate(
        &mut argon2::password_hash::rand_core::OsRng,
    );
    let params = argon2::Params::new(15000, 2, 1, None).ok()?;
    let hasher = argon2::Argon2::new(argon2::Algorithm::Argon2id, argon2::Version::V0x13, params);
    match argon2::PasswordHasher::hash_password(&hasher, password.as_bytes(), &salt) {
        Ok(h) => Some(h.to_string()),
        Err(_) => None,
    }
}

/// Relies on `argon2::PasswordHash::new`: whether the string parses as a
/// PHC-format hash string, deterministic in the string.
#[verifier::external_body]
fn check_phc(s: &str) -> (r: bool)
    ensures
        r == is_phc_hash(s@),
{
    argon2::PasswordHash::new(s).is_ok()
}

/// Relies on argon2's `verify_password` over a hash string parsed by
/// `PasswordHash::new`: whether the candidate matches the hash, a
/// deterministic function of the two strings. A string that is no PHC
/// hash matches nothing.
#[verifier::external_body]
fn verify_with_argon2(hash: &str, candidate: &str) -> (r: bool)
    ensures
        r == verifies(hash@, candidate@),
{
    match argon2::PasswordHash::new(hash) {
        Ok(parsed) => argon2::PasswordVerifier::verify_password(
            &argon2::Argon2::default(),
            candidate.as_bytes(),
            &parsed,
        ).is_ok(),
        Err(_) => false,
    }
}

/// A stored password hash. Only hashes are persisted; verification is a
/// dedicated operation, never string comparison.
#[derive(Debug, PartialEq, Eq, Hash)]
pub struct HashedPassword(pub String);

impl View for HashedPassword {
    type V = Seq<char>;

    open spec fn view(&self) -> Seq<char> {
        self.0@
    }
}

impl Clone for HashedPassword {
    fn clone(&self) -> (r: Self)
        ensures
            r@ == self@,
    {
        HashedPassword(self.0.clone())
    }
}

impl HashedPassword {
    /// Validates the raw password against the policy, then hashes it.
    /// A policy break is reported as `InvalidPassword`; a failure of the
    /// hash computation itself as `HashingFailed`, never as a policy
    /// break.
    pub fn parse(s: &str) -> (r: Result<HashedPassword, PasswordParseError>)
        ensures
            (r matches Err(e) && e == PasswordParseError::InvalidPassword) <==> !spec_password_ok(
                s@,
            ),
            r matches Ok(hp) ==> verifies(hp@, s@) && is_phc_hash(hp@) && spec_policy_hash(hp@),
    {
        if !validate_password(s) {
            return Err(PasswordParseError::InvalidPassword);
        }
        match compute_password_hash(s) {
            Some(h) => Ok(HashedPassword(h)),
            None => Err(PasswordParseError::HashingFailed),
        }
    }

    /// Accepts a persisted string as a hash exactly when it is a
    /// well-formed PHC hash string.
    pub fn parse_password_hash(hash: String) -> (r: Result<HashedPassword, String>)
        ensures
            r is Ok <==> is_phc_hash(hash@),
            r matches Ok(hp) ==> hp@ == hash@,
    {
        if check_phc(hash.as_str()) {
            Ok(HashedPassword(hash))
        } else {
            Err("Failed to parse password hash".to_owned())
        }
    }

    /// Recomputes and compares; reports only whether the candidate
    /// matches, never why it failed.
    pub fn verify_raw_password(&self, password_candidate: &str) -> (r: bool)
        ensures
            r == verifies(self@, password_candidate@),
    {
        verify_with_argon2(self.0.as_str(), password_candidate)
    }

    pub fn as_str(&self) -> (r: &str)
        ensures
            r@ == self@,
    {
        self.0.as_str()
    }
}

} // verus!

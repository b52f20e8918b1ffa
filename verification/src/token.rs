//! Signed, time-limited session tokens.
//!
//! A token is `hex(mac) "." expiry "." subject`: the keyed MAC of the
//! body rendered as lowercase hexadecimal, then the expiry as decimal
//! seconds, then the subject email. The MAC is HMAC-SHA-256, named by
//! the uninterpreted function `mac_of`; the framing, parsing and expiry
//! arithmetic are all verified, so validating an issued token is proved
//! to give back its subject and expiry (`lemma_token_round_trip`).

use vstd::prelude::*;
use vstd::string::*;
use crate::codec::{
    is_digit_seq,
    is_digit_char,
    dec_value,
    str_of_u64,
    lemma_str_of_u64_value,
    hex_of_bytes,
    lemma_hex_of_bytes_chars,
    is_hex_char,
    u64_to_string,
    parse_u64,
    bytes_to_hex,
};
use crate::email::Email;
use crate::strutil::{push_char, str_eq};

verus! {

/// How long an issued token stays valid, in seconds.
pub const TOKEN_TTL_SECONDS: u64 = 600;

/// Names the HMAC-SHA-256 of the message under the key, a deterministic
/// function of the two arguments.
pub uninterp spec fn mac_of(key: Seq<u8>, msg: Seq<char>) -> Seq<u8>;

/// Relies on the hmac crate's `Hmac<Sha256>`: the keyed digest of the
/// message bytes. HMAC accepts keys of any length, and the digest is
/// deterministic in key and message.
#[verifier::external_body]
fn compute_mac(key: &Vec<u8>, msg: &str) -> (r: Vec<u8>)
    ensures
        r@ == mac_of(key@, msg@),
{
    let mut m = <hmac::Hmac<sha2::Sha256> as hmac::KeyInit>::new_from_slice(key.as_slice())
        .expect("HMAC accepts keys of any length");
    hmac::Mac::update(&mut m, msg.as_bytes());
    hmac::Mac::finalize(m).into_bytes().to_vec()
}

/// What a valid token asserts: an authenticated subject, until expiry.
#[derive(Debug, PartialEq, Eq)]
pub struct Claims {
    pub subject: Email,
    pub expiry: u64,
}

/// Why a token was rejected.
#[derive(Debug, PartialEq, Eq, Structural, Clone, Copy)]
pub enum TokenError {
    /// Malformed, or the MAC does not match the body.
    InvalidSignature,
    /// Well-formed and correctly signed, but past its expiry.
    Expired,
}

/// The signed body: expiry seconds in decimal, a dot, the subject.
pub open spec fn token_payload(email: Seq<char>, expiry: u64) -> Seq<char> {
    str_of_u64(expiry) + seq!['.'] + email
}

/// The full token: the hexadecimal MAC of the body, a dot, the body.
pub open spec fn token_of(key: Seq<u8>, email: Seq<char>, expiry: u64) -> Seq<char> {
    hex_of_bytes(mac_of(key, token_payload(email, expiry))) + seq!['.'] + token_payload(
        email,
        expiry,
    )
}

/// Index of the first dot, or -1 when there is none.
pub open spec fn first_dot(s: Seq<char>) -> int
    decreases s.len(),
{
    if s.len() == 0 {
        -1
    } else if s[0] == '.' {
        0
    } else {
        let r = first_dot(s.subrange(1, s.len() as int));
        if r < 0 {
            -1
        } else {
            1 + r
        }
    }
}

pub proof fn lemma_first_dot(s: Seq<char>)
    ensures
        first_dot(s) == -1 ==> forall|i: int| 0 <= i < s.len() ==> s[i] != '.',
        first_dot(s) >= 0 ==> 0 <= first_dot(s) < s.len() && s[first_dot(s)] == '.' && forall|
            j: int,
        | 0 <= j < first_dot(s) ==> s[j] != '.',
    decreases s.len(),
{
    if s.len() == 0 {
    } else if s[0] == '.' {
    } else {
        let tail = s.subrange(1, s.len() as int);
        lemma_first_dot(tail);
        if first_dot(tail) < 0 {
            assert forall|i: int| 0 <= i < s.len() implies s[i] != '.' by {
                if i > 0 {
                    assert(tail[i - 1] == s[i]);
                    assert(tail[i - 1] != '.');
                }
            }
        } else {
            let f = first_dot(tail);
            assert(first_dot(s) == 1 + f);
            assert(s[1 + f] == tail[f]);
            assert forall|j: int| 0 <= j < 1 + f implies s[j] != '.' by {
                if j > 0 {
                    assert(tail[j - 1] == s[j]);
                    assert(tail[j - 1] != '.');
                }
            }
        }
    }
}

/// The first dot is pinned by any witness that is a dot preceded by no
/// dot.
pub proof fn lemma_first_dot_unique(s: Seq<char>, k: int)
    requires
        0 <= k < s.len(),
        s[k] == '.',
        forall|j: int| 0 <= j < k ==> s[j] != '.',
    ensures
        first_dot(s) == k,
{
    lemma_first_dot(s);
    if first_dot(s) == -1 {
        assert(s[k] != '.');
    } else {
        let f = first_dot(s);
        if f < k {
            assert(s[f] != '.');
        } else if f > k {
            assert(s[k] != '.');
        }
    }
}

/// The token splits into a MAC part and a body that itself splits.
pub open spec fn token_parts_ok(t: Seq<char>) -> bool {
    first_dot(t) >= 0 && first_dot(token_body(t)) >= 0
}

pub open spec fn token_mac_hex(t: Seq<char>) -> Seq<char> {
    t.subrange(0, first_dot(t))
}

pub open spec fn token_body(t: Seq<char>) -> Seq<char> {
    t.subrange(first_dot(t) + 1, t.len() as int)
}

pub open spec fn token_exp_str(t: Seq<char>) -> Seq<char> {
    token_body(t).subrange(0, first_dot(token_body(t)))
}

pub open spec fn token_email(t: Seq<char>) -> Seq<char> {
    token_body(t).subrange(first_dot(token_body(t)) + 1, token_body(t).len() as int)
}

/// The MAC part equals the keyed MAC of the body.
pub open spec fn token_sig_ok(key: Seq<u8>, t: Seq<char>) -> bool {
    token_parts_ok(t) && token_mac_hex(t) == hex_of_bytes(mac_of(key, token_body(t)))
}

/// The expiry field is a nonempty digit string that fits in a `u64`.
pub open spec fn token_exp_ok(t: Seq<char>) -> bool {
    token_parts_ok(t) && token_exp_str(t).len() >= 1 && is_digit_seq(token_exp_str(t))
        && dec_value(token_exp_str(t)) <= u64::MAX
}

pub open spec fn token_expiry(t: Seq<char>) -> int {
    dec_value(token_exp_str(t))
}

/// Cryptographic validity at a moment: well-formed, correctly signed,
/// and not yet expired. Revocation is a separate, stateful question.
pub open spec fn token_valid(key: Seq<u8>, t: Seq<char>, now: u64) -> bool {
    token_sig_ok(key, t) && token_exp_ok(t) && now < token_expiry(t)
}

/// Mints the token for a subject and an absolute expiry.
pub fn issue_token(key: &Vec<u8>, email: &Email, expiry: u64) -> (t: String)
    ensures
        t@ == token_of(key@, email@, expiry),
{
    let mut payload = u64_to_string(expiry);
    push_char(&mut payload, '.');
    payload.append(email.as_str());
    proof {
        assert(payload@ =~= token_payload(email@, expiry));
    }
    let mac = compute_mac(key, payload.as_str());
    let mut t = bytes_to_hex(&mac);
    push_char(&mut t, '.');
    t.append(payload.as_str());
    proof {
        assert(t@ =~= token_of(key@, email@, expiry));
    }
    t
}

/// Finds the first dot of a string.
fn find_dot(s: &str) -> (r: Option<usize>)
    ensures
        r matches Some(i) ==> i < s@.len() && first_dot(s@) == i,
        r is None ==> first_dot(s@) == -1,
{
    let n = s.unicode_len();
    let mut i: usize = 0;
    while i < n
        invariant
            0 <= i <= n,
            n == s@.len(),
            forall|j: int| 0 <= j < i ==> s@[j] != '.',
        decreases n - i,
    {
        let c = s.get_char(i);
        if c == '.' {
            proof {
                lemma_first_dot_unique(s@, i as int);
            }
            return Some(i);
        }
        i += 1;
    }
    proof {
        lemma_first_dot(s@);
        if first_dot(s@) >= 0 {
            assert(s@[first_dot(s@)] != '.');
        }
    }
    None
}

/// Checks signature and expiry of a token string; a structurally
/// malformed token counts as a bad signature. Gives back the claims
/// exactly when the token is valid at `now`.
pub fn validate_token(key: &Vec<u8>, token: &str, now: u64) -> (r: Result<Claims, TokenError>)
    ensures
        r is Ok <==> token_valid(key@, token@, now),
        r matches Ok(c) ==> c.subject@ == token_email(token@) && c.expiry == token_expiry(token@),
        r matches Err(e) ==> (e == TokenError::Expired <==> (token_sig_ok(key@, token@)
            && token_exp_ok(token@) && now >= token_expiry(token@))),
{
    let n = token.unicode_len();
    let i = match find_dot(token) {
        Some(i) => i,
        None => {
            return Err(TokenError::InvalidSignature);
        },
    };
    let mac_hex = token.substring_char(0, i);
    let body = token.substring_char(i + 1, n);
    proof {
        assert(body@ == token_body(token@));
        assert(mac_hex@ == token_mac_hex(token@));
    }
    let j = match find_dot(body) {
        Some(j) => j,
        None => {
            return Err(TokenError::InvalidSignature);
        },
    };
    let body_len = body.unicode_len();
    let exp_str = body.substring_char(0, j);
    let email_str = body.substring_char(j + 1, body_len);
    proof {
        assert(exp_str@ == token_exp_str(token@));
        assert(email_str@ == token_email(token@));
    }
    let mac = compute_mac(key, body);
    let expected_hex = bytes_to_hex(&mac);
    if !str_eq(expected_hex.as_str(), mac_hex) {
        return Err(TokenError::InvalidSignature);
    }
    let expiry = match parse_u64(exp_str) {
        Some(v) => v,
        None => {
            return Err(TokenError::InvalidSignature);
        },
    };
    if now >= expiry {
        return Err(TokenError::Expired);
    }
    Ok(Claims { subject: Email(email_str.to_owned()), expiry })
}

/// Validating an issued token before its expiry succeeds and gives back
/// the subject and the expiry it was issued with; at or past the expiry
/// the token is no longer valid.
pub proof fn lemma_token_round_trip(key: Seq<u8>, email: Seq<char>, expiry: u64, now: u64)
    ensures
        token_sig_ok(key, token_of(key, email, expiry)),
        token_exp_ok(token_of(key, email, expiry)),
        token_email(token_of(key, email, expiry)) == email,
        token_expiry(token_of(key, email, expiry)) == expiry,
        token_valid(key, token_of(key, email, expiry), now) <==> now < expiry,
{
    let p = token_payload(email, expiry);
    let h = hex_of_bytes(mac_of(key, p));
    let t = token_of(key, email, expiry);
    lemma_hex_of_bytes_chars(mac_of(key, p));
    assert(!is_hex_char('.'));
    assert(forall|j: int| 0 <= j < h.len() ==> t[j] == h[j] && t[j] != '.');
    assert(t[h.len() as int] == '.');
    lemma_first_dot_unique(t, h.len() as int);
    assert(token_mac_hex(t) =~= h);
    assert(token_body(t) =~= p);
    let d = str_of_u64(expiry);
    lemma_str_of_u64_value(expiry);
    assert(!is_digit_char('.'));
    assert(forall|j: int| 0 <= j < d.len() ==> p[j] == d[j] && p[j] != '.');
    assert(p[d.len() as int] == '.');
    lemma_first_dot_unique(p, d.len() as int);
    assert(token_exp_str(t) =~= d);
    assert(token_email(t) =~= email);
}

} // verus!

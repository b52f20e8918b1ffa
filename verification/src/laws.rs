//! The security laws of the protocol, stated over the store views and
//! the spec functions that the operations' contracts use.

use vstd::prelude::*;
use crate::auth::token_accepted;
use crate::token::{token_of, token_valid, token_email, lemma_token_round_trip};
use crate::two_fa_store::{ChallengeV, challenge_matches};

verus! {

/// At most one live challenge exists per email: issuing a second
/// challenge for the same email leaves only the second one stored, a
/// verification attempt carrying the first attempt id no longer
/// matches, and only the latest attempt id and code can match at all.
pub proof fn lemma_challenge_superseded(
    m: Map<Seq<char>, ChallengeV>,
    email: Seq<char>,
    c1: ChallengeV,
    c2: ChallengeV,
    now: u64,
)
    ensures
        m.insert(email, c1).insert(email, c2)[email] == c2,
        c1.attempt_id != c2.attempt_id ==> !challenge_matches(
            m.insert(email, c1).insert(email, c2),
            email,
            c1.attempt_id,
            c1.code,
            now,
        ),
        forall|attempt_id: Seq<char>, code: Seq<char>|
            challenge_matches(
                m.insert(email, c1).insert(email, c2),
                email,
                attempt_id,
                code,
                now,
            ) ==> attempt_id == c2.attempt_id && code == c2.code,
{
}

/// A consumed challenge cannot be verified again: once the entry for
/// the email is removed, no attempt id and code match at any time.
pub proof fn lemma_challenge_consumed(
    m: Map<Seq<char>, ChallengeV>,
    email: Seq<char>,
    attempt_id: Seq<char>,
    code: Seq<char>,
    later: u64,
)
    ensures
        !challenge_matches(m.remove(email), email, attempt_id, code, later),
{
}

/// A challenge at or past its expiry is unverifiable, even with the
/// correct attempt id and code.
pub proof fn lemma_challenge_expired(m: Map<Seq<char>, ChallengeV>, email: Seq<char>, now: u64)
    requires
        m.contains_key(email),
        now >= m[email].expires_at,
    ensures
        forall|attempt_id: Seq<char>, code: Seq<char>|
            !challenge_matches(m, email, attempt_id, code, now),
{
}

/// A revoked token is rejected by token verification, whatever its
/// signature and expiry.
pub proof fn lemma_revoked_rejected(
    banned: Set<Seq<char>>,
    key: Seq<u8>,
    token: Seq<char>,
    now: u64,
)
    requires
        banned.contains(token),
    ensures
        !token_accepted(banned, key, token, now),
{
}

/// Round trip: a token issued for an email, used before its expiry and
/// not revoked, is accepted, and its subject is that email.
pub proof fn lemma_issued_token_accepted(
    banned: Set<Seq<char>>,
    key: Seq<u8>,
    email: Seq<char>,
    expiry: u64,
    now: u64,
)
    requires
        now < expiry,
        !banned.contains(token_of(key, email, expiry)),
    ensures
        token_accepted(banned, key, token_of(key, email, expiry), now),
        token_email(token_of(key, email, expiry)) == email,
{
    lemma_token_round_trip(key, email, expiry, now);
}

} // verus!

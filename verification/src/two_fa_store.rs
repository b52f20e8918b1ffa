//! The in-memory second-factor challenge store: a short-lived mapping
//! from email to the one outstanding challenge for that identity.
//!
//! At most one challenge per email: issuing again replaces the old one.
//! Each challenge carries an absolute expiry; a challenge at or past it
//! counts as absent when looked up, which is how the time-to-live rule
//! enters every contract.

use vstd::prelude::*;
use crate::email::Email;
use crate::errors::TwoFACodeStoreError;
use crate::strutil::str_eq;
use crate::two_fa::{LoginAttemptId, TwoFaCode};

verus! {

/// How long an issued challenge stays verifiable, in seconds.
pub const TWO_FA_TTL_SECONDS: u64 = 600;

/// The mathematical content of one outstanding challenge.
pub ghost struct ChallengeV {
    pub attempt_id: Seq<char>,
    pub code: Seq<char>,
    pub expires_at: u64,
}

/// One outstanding second-factor challenge, keyed by its email.
pub struct Challenge {
    pub email: Email,
    pub attempt_id: LoginAttemptId,
    pub code: TwoFaCode,
    pub expires_at: u64,
}

impl Challenge {
    pub open spec fn content(&self) -> ChallengeV {
        ChallengeV {
            attempt_id: self.attempt_id@,
            code: self.code@,
            expires_at: self.expires_at,
        }
    }
}

/// A challenge is live while the clock is strictly before its expiry.
pub open spec fn challenge_live(m: Map<Seq<char>, ChallengeV>, email: Seq<char>, now: u64) -> bool {
    m.contains_key(email) && now < m[email].expires_at
}

/// A verification attempt matches exactly when a live challenge exists
/// for the email and both the attempt id and the code agree with it.
pub open spec fn challenge_matches(
    m: Map<Seq<char>, ChallengeV>,
    email: Seq<char>,
    attempt_id: Seq<char>,
    code: Seq<char>,
    now: u64,
) -> bool {
    challenge_live(m, email, now) && m[email].attempt_id == attempt_id && m[email].code == code
}

/// No two challenges share an email.
pub open spec fn challenge_emails_unique(s: Seq<Challenge>) -> bool {
    forall|i: int, j: int| 0 <= i < j < s.len() ==> s[i].email@ != s[j].email@
}

/// The map a challenge list denotes.
pub open spec fn challenge_map(s: Seq<Challenge>) -> Map<Seq<char>, ChallengeV>
    decreases s.len(),
{
    if s.len() == 0 {
        Map::empty()
    } else {
        challenge_map(s.drop_last()).insert(s.last().email@, s.last().content())
    }
}

proof fn lemma_challenge_map_contains(s: Seq<Challenge>, e: Seq<char>)
    ensures
        challenge_map(s).contains_key(e) <==> (exists|i: int| 0 <= i < s.len() && s[i].email@ == e),
    decreases s.len(),
{
    if s.len() > 0 {
        lemma_challenge_map_contains(s.drop_last(), e);
        if e == s.last().email@ {
            assert(s[s.len() - 1].email@ == e);
        } else {
            if challenge_map(s).contains_key(e) {
                let i = choose|i: int| 0 <= i < s.drop_last().len() && s.drop_last()[i].email@
                    == e;
                assert(s[i].email@ == e);
            }
            if exists|i: int| 0 <= i < s.len() && s[i].email@ == e {
                let i = choose|i: int| 0 <= i < s.len() && s[i].email@ == e;
                assert(i < s.len() - 1);
                assert(s.drop_last()[i].email@ == e);
            }
        }
    }
}

proof fn lemma_challenge_map_get(s: Seq<Challenge>, i: int)
    requires
        challenge_emails_unique(s),
        0 <= i < s.len(),
    ensures
        challenge_map(s).contains_key(s[i].email@),
        challenge_map(s)[s[i].email@] == s[i].content(),
    decreases s.len(),
{
    if i == s.len() - 1 {
    } else {
        assert(challenge_emails_unique(s.drop_last()));
        assert(s.drop_last()[i] == s[i]);
        lemma_challenge_map_get(s.drop_last(), i);
        assert(s[i].email@ != s.last().email@);
    }
}

proof fn lemma_challenge_map_push(s: Seq<Challenge>, c: Challenge)
    ensures
        challenge_map(s.push(c)) == challenge_map(s).insert(c.email@, c.content()),
{
    assert(s.push(c).drop_last() =~= s);
    assert(s.push(c).last() == c);
}

proof fn lemma_challenge_map_remove(s: Seq<Challenge>, i: int)
    requires
        challenge_emails_unique(s),
        0 <= i < s.len(),
    ensures
        challenge_map(s.remove(i)) == challenge_map(s).remove(s[i].email@),
    decreases s.len(),
{
    let e = s[i].email@;
    if i == s.len() - 1 {
        assert(s.remove(i) =~= s.drop_last());
        lemma_challenge_map_contains(s.drop_last(), e);
        assert(forall|j: int| 0 <= j < s.len() - 1 ==> s.drop_last()[j].email@ != e);
        assert(challenge_map(s.drop_last()) =~= challenge_map(s).remove(e));
    } else {
        assert(challenge_emails_unique(s.drop_last()));
        lemma_challenge_map_remove(s.drop_last(), i);
        assert(s.remove(i).drop_last() =~= s.drop_last().remove(i));
        assert(s.remove(i).last() == s.last());
        assert(s.last().email@ != e);
        assert(challenge_map(s.remove(i)) == challenge_map(s.drop_last().remove(i)).insert(
            s.last().email@,
            s.last().content(),
        ));
        assert(challenge_map(s.drop_last()).remove(e).insert(s.last().email@, s.last().content())
            =~= challenge_map(s.drop_last()).insert(s.last().email@, s.last().content()).remove(e));
    }
}

/// The challenge-store interface, polymorphic over the backing
/// technology. `codes` is the map from email to the one outstanding
/// challenge for that identity.
pub trait TwoFACodeStore: Sized {
    /// The map from email to outstanding challenge.
    spec fn codes(&self) -> Map<Seq<char>, ChallengeV>;

    /// Upserts the challenge for this email; the new one expires a
    /// fixed time-to-live from `now`.
    fn add_code(
        &mut self,
        email: Email,
        login_attempt_id: LoginAttemptId,
        code: TwoFaCode,
        now: u64,
    ) -> (r: Result<(), TwoFACodeStoreError>)
        requires
            now + TWO_FA_TTL_SECONDS <= u64::MAX,
        ensures
            r == Ok::<(), TwoFACodeStoreError>(()),
            final(self).codes() == old(self).codes().insert(
                email@,
                ChallengeV {
                    attempt_id: login_attempt_id@,
                    code: code@,
                    expires_at: (now + TWO_FA_TTL_SECONDS) as u64,
                },
            ),
    ;

    /// Discards the challenge for this email; reports whether one was
    /// stored at all.
    fn remove_code(&mut self, email: &Email) -> (r: Result<(), TwoFACodeStoreError>)
        ensures
            old(self).codes().contains_key(email@) ==> r == Ok::<(), TwoFACodeStoreError>(())
                && final(self).codes() == old(self).codes().remove(email@),
            !old(self).codes().contains_key(email@) ==> r == Err::<(), TwoFACodeStoreError>(
                TwoFACodeStoreError::LoginAttemptIdNotFound,
            ) && final(self).codes() == old(self).codes(),
    ;

    /// The live challenge for this email, if one exists and its expiry
    /// is still ahead of `now`.
    fn get_code(&self, email: &Email, now: u64) -> (r: Result<
        (LoginAttemptId, TwoFaCode),
        TwoFACodeStoreError,
    >)
        ensures
            r is Ok <==> challenge_live(self.codes(), email@, now),
            r matches Ok(p) ==> p.0@ == self.codes()[email@].attempt_id && p.1@
                == self.codes()[email@].code,
            r is Err ==> r == Err::<(LoginAttemptId, TwoFaCode), TwoFACodeStoreError>(
                TwoFACodeStoreError::LoginAttemptIdNotFound,
            ),
    ;
}

/// The in-memory challenge store.
pub struct HashmapTwoFACodeStore {
    codes: Vec<Challenge>,
}

impl View for HashmapTwoFACodeStore {
    type V = Map<Seq<char>, ChallengeV>;

    closed spec fn view(&self) -> Map<Seq<char>, ChallengeV> {
        challenge_map(self.codes@)
    }
}

impl Default for HashmapTwoFACodeStore {
    /// An empty store.
    fn default() -> (r: Self)
        ensures
            r@ == Map::<Seq<char>, ChallengeV>::empty(),
    {
        HashmapTwoFACodeStore { codes: Vec::new() }
    }
}

impl HashmapTwoFACodeStore {
    #[verifier::type_invariant]
    closed spec fn wf(&self) -> bool {
        challenge_emails_unique(self.codes@)
    }

    fn find_index(&self, email: &str) -> (r: Option<usize>)
        ensures
            r matches Some(i) ==> i < self.codes@.len() && self.codes@[i as int].email@ == email@,
            r is None ==> forall|i: int|
                0 <= i < self.codes@.len() ==> self.codes@[i].email@ != email@,
    {
        let n = self.codes.len();
        let mut i: usize = 0;
        while i < n
            invariant
                0 <= i <= n,
                n == self.codes@.len(),
                forall|j: int| 0 <= j < i ==> self.codes@[j].email@ != email@,
            decreases n - i,
        {
            if str_eq(self.codes[i].email.as_str(), email) {
                return Some(i);
            }
            i += 1;
        }
        None
    }

    /// Removes the challenge for this email if one is stored, proving
    /// the view shrinks by that key.
    fn take_out(&mut self, email: &str)
        ensures
            final(self)@ == old(self)@.remove(email@),
    {
        proof {
            use_type_invariant(&*self);
            lemma_challenge_map_contains(self.codes@, email@);
        }
        match self.find_index(email) {
            Some(i) => {
                let ghost olds = self.codes@;
                let mut codes = Vec::new();
                std::mem::swap(&mut codes, &mut self.codes);
                codes.remove(i);
                proof {
                    assert(codes@ =~= olds.remove(i as int));
                    assert(challenge_emails_unique(codes@)) by {
                        assert(forall|k: int|
                            0 <= k < codes@.len() ==> #[trigger] codes@[k] == if k < i {
                                olds[k]
                            } else {
                                olds[k + 1]
                            });
                    }
                    lemma_challenge_map_remove(olds, i as int);
                }
                std::mem::swap(&mut codes, &mut self.codes);
            },
            None => {
                proof {
                    assert(!old(self)@.contains_key(email@));
                    assert(self@ =~= self@.remove(email@));
                }
            },
        }
    }
}

impl TwoFACodeStore for HashmapTwoFACodeStore {
    open spec fn codes(&self) -> Map<Seq<char>, ChallengeV> {
        self@
    }

    /// Any prior challenge for the same identity is replaced.
    fn add_code(
        &mut self,
        email: Email,
        login_attempt_id: LoginAttemptId,
        code: TwoFaCode,
        now: u64,
    ) -> (r: Result<(), TwoFACodeStoreError>) {
        self.take_out(email.as_str());
        proof {
            use_type_invariant(&*self);
            lemma_challenge_map_contains(self.codes@, email@);
        }
        let entry = Challenge {
            email,
            attempt_id: login_attempt_id,
            code,
            expires_at: now + TWO_FA_TTL_SECONDS,
        };
        let ghost olds = self.codes@;
        let ghost oldm = self@;
        let mut codes = Vec::new();
        std::mem::swap(&mut codes, &mut self.codes);
        codes.push(entry);
        proof {
            assert(challenge_emails_unique(codes@)) by {
                assert(codes@.drop_last() =~= olds);
                assert(!oldm.contains_key(codes@.last().email@));
                assert(forall|k: int|
                    0 <= k < olds.len() ==> #[trigger] olds[k].email@ != codes@.last().email@);
                assert(forall|k: int| 0 <= k < olds.len() ==> codes@[k] == olds[k]);
            }
            lemma_challenge_map_push(olds, codes@.last());
            assert(codes@ =~= olds.push(codes@.last()));
            assert(challenge_map(olds).insert(codes@.last().email@, codes@.last().content())
                =~= old(self)@.insert(
                email@,
                ChallengeV {
                    attempt_id: login_attempt_id@,
                    code: code@,
                    expires_at: (now + TWO_FA_TTL_SECONDS) as u64,
                },
            ));
        }
        std::mem::swap(&mut codes, &mut self.codes);
        Ok(())
    }

    /// Discards the challenge for this email; reports whether one was
    /// stored at all.
    fn remove_code(&mut self, email: &Email) -> (r: Result<(), TwoFACodeStoreError>) {
        proof {
            use_type_invariant(&*self);
            lemma_challenge_map_contains(self.codes@, email@);
        }
        match self.find_index(email.as_str()) {
            Some(_) => {
                self.take_out(email.as_str());
                Ok(())
            },
            None => {
                proof {
                    assert(!self@.contains_key(email@));
                }
                Err(TwoFACodeStoreError::LoginAttemptIdNotFound)
            },
        }
    }

    /// An absent, consumed or expired challenge is reported
    /// identically.
    fn get_code(&self, email: &Email, now: u64) -> (r: Result<
        (LoginAttemptId, TwoFaCode),
        TwoFACodeStoreError,
    >) {
        proof {
            use_type_invariant(&*self);
            lemma_challenge_map_contains(self.codes@, email@);
        }
        match self.find_index(email.as_str()) {
            Some(i) => {
                proof {
                    lemma_challenge_map_get(self.codes@, i as int);
                }
                let entry = &self.codes[i];
                if now < entry.expires_at {
                    Ok((entry.attempt_id.clone(), entry.code.clone()))
                } else {
                    Err(TwoFACodeStoreError::LoginAttemptIdNotFound)
                }
            },
            None => Err(TwoFACodeStoreError::LoginAttemptIdNotFound),
        }
    }
}

} // verus!

//! The in-memory revocation list: the set of session tokens that were
//! explicitly invalidated before their natural expiry.
//!
//! Its view is the set of revoked token strings; membership must be
//! consulted on every protected-resource access, independent of
//! signature validity.

use vstd::prelude::*;
use crate::errors::BannedTokenStoreError;
use crate::strutil::str_eq;

verus! {

/// The set a token list denotes.
pub open spec fn token_set(s: Seq<String>) -> Set<Seq<char>>
    decreases s.len(),
{
    if s.len() == 0 {
        Set::empty()
    } else {
        token_set(s.drop_last()).insert(s.last()@)
    }
}

proof fn lemma_token_set_contains(s: Seq<String>, t: Seq<char>)
    ensures
        token_set(s).contains(t) ==> exists|i: int| 0 <= i < s.len() && s[i]@ == t,
        forall|i: int| 0 <= i < s.len() && #[trigger] s[i]@ == t ==> token_set(s).contains(t),
    decreases s.len(),
{
    if s.len() > 0 {
        lemma_token_set_contains(s.drop_last(), t);
        if token_set(s).contains(t) {
            if t == s.last()@ {
                assert(s[s.len() - 1]@ == t);
            } else {
                let i = choose|i: int| 0 <= i < s.drop_last().len() && s.drop_last()[i]@ == t;
                assert(s[i]@ == t);
            }
        }
        assert forall|i: int| 0 <= i < s.len() && #[trigger] s[i]@ == t implies token_set(
            s,
        ).contains(t) by {
            if i < s.len() - 1 {
                assert(s.drop_last()[i]@ == t);
            }
        }
    }
}

proof fn lemma_token_set_push(s: Seq<String>, t: String)
    ensures
        token_set(s.push(t)) == token_set(s).insert(t@),
{
    assert(s.push(t).drop_last() =~= s);
    assert(s.push(t).last() == t);
}

/// The revocation-list interface, polymorphic over the backing
/// technology. `banned` is the set of revoked token strings.
pub trait BannedTokenStore: Sized {
    /// The set of revoked token strings.
    spec fn banned(&self) -> Set<Seq<char>>;

    /// Revokes the token; reports when it was already on the list,
    /// changing nothing.
    fn add_token(&mut self, token: String) -> (r: Result<(), BannedTokenStoreError>)
        ensures
            old(self).banned().contains(token@) ==> r == Err::<(), BannedTokenStoreError>(
                BannedTokenStoreError::TokenAlreadyBanned,
            ) && final(self).banned() == old(self).banned(),
            !old(self).banned().contains(token@) ==> r == Ok::<(), BannedTokenStoreError>(())
                && final(self).banned() == old(self).banned().insert(token@),
    ;

    /// Whether the token has been revoked.
    fn is_token_banned(&self, token: String) -> (r: bool)
        ensures
            r == self.banned().contains(token@),
    ;
}

/// The in-memory revocation list.
pub struct HashsetBannedTokenStore {
    tokens: Vec<String>,
}

impl View for HashsetBannedTokenStore {
    type V = Set<Seq<char>>;

    closed spec fn view(&self) -> Set<Seq<char>> {
        token_set(self.tokens@)
    }
}

impl Default for HashsetBannedTokenStore {
    /// An empty list.
    fn default() -> (r: Self)
        ensures
            r@ == Set::<Seq<char>>::empty(),
    {
        HashsetBannedTokenStore::new()
    }
}

impl HashsetBannedTokenStore {
    /// An empty list.
    pub fn new() -> (r: Self)
        ensures
            r@ == Set::<Seq<char>>::empty(),
    {
        HashsetBannedTokenStore { tokens: Vec::new() }
    }

    fn find(&self, token: &str) -> (r: bool)
        ensures
            r == self@.contains(token@),
    {
        proof {
            lemma_token_set_contains(self.tokens@, token@);
        }
        let n = self.tokens.len();
        let mut i: usize = 0;
        while i < n
            invariant
                0 <= i <= n,
                n == self.tokens@.len(),
                forall|j: int| 0 <= j < i ==> self.tokens@[j]@ != token@,
            decreases n - i,
        {
            if str_eq(self.tokens[i].as_str(), token) {
                proof {
                    lemma_token_set_contains(self.tokens@, token@);
                    assert(self.tokens@[i as int]@ == token@);
                }
                return true;
            }
            i += 1;
        }
        false
    }
}

impl BannedTokenStore for HashsetBannedTokenStore {
    open spec fn banned(&self) -> Set<Seq<char>> {
        self@
    }

    fn add_token(&mut self, token: String) -> (r: Result<(), BannedTokenStoreError>) {
        if self.find(token.as_str()) {
            return Err(BannedTokenStoreError::TokenAlreadyBanned);
        }
        proof {
            lemma_token_set_push(self.tokens@, token);
        }
        self.tokens.push(token);
        Ok(())
    }

    /// Whether the token has been revoked.
    fn is_token_banned(&self, token: String) -> (r: bool) {
        self.find(token.as_str())
    }
}

} // verus!

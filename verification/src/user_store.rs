//! The in-memory credential store: a durable mapping from email to
//! account record, with the email unique across the store.
//!
//! The store is a vector of records whose emails are pairwise distinct;
//! its view is the finite map from email to record content, and every
//! operation is specified against that map.

use vstd::prelude::*;
use crate::email::Email;
use crate::errors::UserStoreError;
use crate::password::{HashedPassword, verifies};
use crate::strutil::str_eq;
use crate::user::{User, UserV};

verus! {

/// No two records share an email.
pub open spec fn emails_unique(s: Seq<User>) -> bool {
    forall|i: int, j: int| 0 <= i < j < s.len() ==> s[i]@.email != s[j]@.email
}

/// The map a record list denotes.
pub open spec fn user_map(s: Seq<User>) -> Map<Seq<char>, UserV>
    decreases s.len(),
{
    if s.len() == 0 {
        Map::empty()
    } else {
        user_map(s.drop_last()).insert(s.last()@.email, s.last()@)
    }
}

proof fn lemma_user_map_contains(s: Seq<User>, e: Seq<char>)
    ensures
        user_map(s).contains_key(e) <==> (exists|i: int| 0 <= i < s.len() && s[i]@.email == e),
    decreases s.len(),
{
    if s.len() > 0 {
        lemma_user_map_contains(s.drop_last(), e);
        if e == s.last()@.email {
            assert(s[s.len() - 1]@.email == e);
        } else {
            if user_map(s).contains_key(e) {
                let i = choose|i: int| 0 <= i < s.drop_last().len() && s.drop_last()[i]@.email
                    == e;
                assert(s[i]@.email == e);
            }
            if exists|i: int| 0 <= i < s.len() && s[i]@.email == e {
                let i = choose|i: int| 0 <= i < s.len() && s[i]@.email == e;
                assert(i < s.len() - 1);
                assert(s.drop_last()[i]@.email == e);
            }
        }
    }
}

proof fn lemma_user_map_get(s: Seq<User>, i: int)
    requires
        emails_unique(s),
        0 <= i < s.len(),
    ensures
        user_map(s).contains_key(s[i]@.email),
        user_map(s)[s[i]@.email] == s[i]@,
    decreases s.len(),
{
    if i == s.len() - 1 {
    } else {
        assert(emails_unique(s.drop_last()));
        assert(s.drop_last()[i] == s[i]);
        lemma_user_map_get(s.drop_last(), i);
        assert(s[i]@.email != s.last()@.email);
    }
}

proof fn lemma_user_map_push(s: Seq<User>, u: User)
    ensures
        user_map(s.push(u)) == user_map(s).insert(u@.email, u@),
{
    assert(s.push(u).drop_last() =~= s);
    assert(s.push(u).last() == u);
}

/// The credential store interface: a durable mapping from email to
/// account, polymorphic over the backing technology. `users` is the map
/// the store holds; every operation is specified against it.
pub trait UserStore: Sized {
    /// The map from email to account content.
    spec fn users(&self) -> Map<Seq<char>, UserV>;

    /// Adds the account; fails, changing nothing, when the email is
    /// already present.
    fn add_user(&mut self, user: User) -> (r: Result<(), UserStoreError>)
        ensures
            old(self).users().contains_key(user@.email) ==> r == Err::<(), UserStoreError>(
                UserStoreError::UserAlreadyExists,
            ) && final(self).users() == old(self).users(),
            !old(self).users().contains_key(user@.email) ==> r == Ok::<(), UserStoreError>(())
                && final(self).users() == old(self).users().insert(user@.email, user@),
    ;

    /// Looks the account up by email.
    fn get_user(&self, email: &Email) -> (r: Result<User, UserStoreError>)
        ensures
            self.users().contains_key(email@) ==> (r matches Ok(u) && u@ == self.users()[email@]),
            !self.users().contains_key(email@) ==> r == Err::<User, UserStoreError>(
                UserStoreError::UserNotFound,
            ),
    ;

    /// Looks the account up, then verifies the candidate password
    /// against the stored hash.
    fn validate_user(&self, email: &Email, password: &str) -> (r: Result<(), UserStoreError>)
        ensures
            !self.users().contains_key(email@) ==> r == Err::<(), UserStoreError>(
                UserStoreError::UserNotFound,
            ),
            self.users().contains_key(email@) && verifies(
                self.users()[email@].password_hash,
                password@,
            ) ==> r == Ok::<(), UserStoreError>(()),
            self.users().contains_key(email@) && !verifies(
                self.users()[email@].password_hash,
                password@,
            ) ==> r == Err::<(), UserStoreError>(UserStoreError::InvalidCredentials),
    ;
}

/// The in-memory credential store.
pub struct HashmapUserStore {
    users: Vec<User>,
}

impl View for HashmapUserStore {
    type V = Map<Seq<char>, UserV>;

    closed spec fn view(&self) -> Map<Seq<char>, UserV> {
        user_map(self.users@)
    }
}

impl Default for HashmapUserStore {
    /// An empty store.
    fn default() -> (r: Self)
        ensures
            r@ == Map::<Seq<char>, UserV>::empty(),
    {
        HashmapUserStore { users: Vec::new() }
    }
}

impl HashmapUserStore {
    #[verifier::type_invariant]
    closed spec fn wf(&self) -> bool {
        emails_unique(self.users@)
    }

    /// Index of the record with this email, if any.
    fn find_index(&self, email: &str) -> (r: Option<usize>)
        ensures
            r matches Some(i) ==> i < self.users@.len() && self.users@[i as int]@.email == email@,
            r is None ==> forall|i: int|
                0 <= i < self.users@.len() ==> self.users@[i]@.email != email@,
    {
        let n = self.users.len();
        let mut i: usize = 0;
        while i < n
            invariant
                0 <= i <= n,
                n == self.users@.len(),
                forall|j: int| 0 <= j < i ==> self.users@[j]@.email != email@,
            decreases n - i,
        {
            if str_eq(self.users[i].email.as_str(), email) {
                return Some(i);
            }
            i += 1;
        }
        None
    }
}

impl UserStore for HashmapUserStore {
    open spec fn users(&self) -> Map<Seq<char>, UserV> {
        self@
    }

    fn add_user(&mut self, user: User) -> (r: Result<(), UserStoreError>) {
        proof {
            use_type_invariant(&*self);
            lemma_user_map_contains(self.users@, user@.email);
        }
        match self.find_index(user.email.as_str()) {
            Some(_) => Err(UserStoreError::UserAlreadyExists),
            None => {
                let ghost olds = self.users@;
                let mut users = Vec::new();
                std::mem::swap(&mut users, &mut self.users);
                users.push(user);
                proof {
                    assert(emails_unique(users@)) by {
                        assert(users@.drop_last() =~= olds);
                        assert(forall|i: int, j: int|
                            0 <= i < j < users@.len() && j < users@.len() - 1
                                ==> #[trigger] users@[i]@.email != #[trigger] users@[j]@.email);
                        assert(forall|i: int|
                            0 <= i < users@.len() - 1 ==> #[trigger] users@[i]@.email
                                != users@[users@.len() - 1]@.email);
                    }
                    lemma_user_map_push(olds, users@[olds.len() as int]);
                    assert(users@ =~= olds.push(users@[olds.len() as int]));
                }
                std::mem::swap(&mut users, &mut self.users);
                Ok(())
            },
        }
    }

    /// Looks the account up by email.
    fn get_user(&self, email: &Email) -> (r: Result<User, UserStoreError>) {
        proof {
            use_type_invariant(&*self);
            lemma_user_map_contains(self.users@, email@);
        }
        match self.find_index(email.as_str()) {
            Some(i) => {
                proof {
                    lemma_user_map_get(self.users@, i as int);
                }
                Ok(self.users[i].clone())
            },
            None => Err(UserStoreError::UserNotFound),
        }
    }

    /// Looks the account up, then verifies the candidate password
    /// against the stored hash. An unknown user and a wrong password
    /// are distinguished here, and collapsed only at the protocol
    /// boundary.
    fn validate_user(&self, email: &Email, password: &str) -> (r: Result<(), UserStoreError>) {
        let user = match self.get_user(email) {
            Ok(u) => u,
            Err(_) => {
                // run the hash anyway, so an absent account costs as much
                // as a wrong password and the lookup leaves no timing
                // oracle; the result is discarded
                let _ = HashedPassword::parse(password);
                return Err(UserStoreError::UserNotFound);
            },
        };
        if user.password.verify_raw_password(password) {
            Ok(())
        } else {
            Err(UserStoreError::InvalidCredentials)
        }
    }
}

} // verus!

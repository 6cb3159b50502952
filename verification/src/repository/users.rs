//! The credential store: identities, found by email.

use vstd::prelude::*;
use crate::domain::users::{Credentials, User, UserView};

verus! {

/// Why an identity could not be read.
#[derive(Debug, Clone, Copy, PartialEq, Eq)]
pub enum UserGetError {
    /// No identity has that email.
    Missing,
    /// The store itself failed.
    Unknown,
}

/// Why an identity could not be stored.
#[derive(Debug, Clone, Copy, PartialEq, Eq)]
pub enum UserInsertError {
    /// The email is taken.
    Duplicate,
    /// The store itself failed.
    Unknown,
}

/// No identity in `users` has the id `id`.
pub open spec fn unused_id(users: Map<Seq<char>, UserView>, id: i32) -> bool {
    forall|email: Seq<char>| users.contains_key(email) ==> (#[trigger] users[email]).id != id
}

/// `after` is `before` with one more identity: `email` with the digest
/// `password_hash`, under an id that no other identity has.
pub open spec fn registered(
    before: Map<Seq<char>, UserView>,
    after: Map<Seq<char>, UserView>,
    email: Seq<char>,
    password_hash: Seq<char>,
) -> bool {
    &&& !before.contains_key(email)
    &&& exists|id: i32|
        #![trigger unused_id(before, id)]
        unused_id(before, id) && after == before.insert(
            email,
            UserView { id, email, password_hash },
        )
}

/// A store of identities. Its contents are a map from email to identity; an
/// email is the key of at most one identity.
pub trait UserRepository {
    /// The identities in the store, by email. Left open unless an
    /// implementation states it.
    open spec fn users(&self) -> Map<Seq<char>, UserView> {
        arbitrary()
    }

    /// The store cannot fail on its own account: it reports `Unknown` only
    /// while this is false. False unless an implementation states otherwise.
    open spec fn reliable(&self) -> bool {
        false
    }

    /// The identity with the email `email`.
    fn get_by_email(&self, email: &str) -> (found: Result<User, UserGetError>)
        ensures
            match found {
                Ok(user) => {
                    &&& self.users().contains_key(email@)
                    &&& user@ == self.users()[email@]
                    &&& user.email@ == email@
                },
                Err(UserGetError::Missing) => !self.users().contains_key(email@),
                Err(UserGetError::Unknown) => !self.reliable(),
            },
    ;

    /// Stores a new identity with the email of `credentials` and, as its
    /// digest, what `credentials` carries as password. A taken email is
    /// reported by the insertion itself.
    fn insert(&mut self, credentials: Credentials) -> (done: Result<(), UserInsertError>)
        ensures
            match done {
                Ok(()) => registered(
                    old(self).users(),
                    final(self).users(),
                    credentials.email@,
                    credentials.password@,
                ),
                Err(UserInsertError::Duplicate) => {
                    &&& old(self).users().contains_key(credentials.email@)
                    &&& final(self).users() == old(self).users()
                },
                Err(UserInsertError::Unknown) => {
                    &&& !old(self).reliable()
                    &&& final(self).users() == old(self).users()
                },
            },
    ;
}

/// A credential store held in memory. Ids are handed out in ascending order
/// from 1; when they run out the store reports `Unknown`.
#[derive(Debug)]
pub struct MemoryUserRepository {
    entries: Vec<User>,
    next_id: i32,
}

impl MemoryUserRepository {
    #[verifier::type_invariant]
    spec fn consistent(&self) -> bool {
        &&& forall|i: int, j: int|
            0 <= i < j < self.entries@.len() ==> self.entries@[i].email@ != self.entries@[j].email@
        &&& forall|i: int| 0 <= i < self.entries@.len() ==> (#[trigger] self.entries@[i]).id < self.next_id
    }

    spec fn holds(&self, email: Seq<char>) -> bool {
        exists|i: int| 0 <= i < self.entries@.len() && self.entries@[i].email@ == email
    }

    spec fn position(&self, email: Seq<char>) -> int {
        choose|i: int| 0 <= i < self.entries@.len() && self.entries@[i].email@ == email
    }

    /// An empty store.
    pub fn new() -> (store: Self)
        ensures
            store.users() == Map::<Seq<char>, UserView>::empty(),
            store.next_id() == 1,
            store.reliable(),
    {
        let store = MemoryUserRepository { entries: Vec::new(), next_id: 1 };
        assert(store.users() =~= Map::<Seq<char>, UserView>::empty());
        store
    }

    /// The id that the next identity gets. No identity in the store has it
    /// or a greater one.
    pub closed spec fn next_id(&self) -> i32 {
        self.next_id
    }

    /// The index of the identity with the email `email`.
    fn find(&self, email: &str) -> (at: Option<usize>)
        ensures
            match at {
                Some(i) => i < self.entries@.len() && self.entries@[i as int].email@ == email@,
                None => !self.holds(email@),
            },
    {
        let wanted = email.to_owned();
        let mut i: usize = 0;
        while i < self.entries.len()
            invariant
                i <= self.entries@.len(),
                wanted@ == email@,
                forall|j: int| 0 <= j < i ==> self.entries@[j].email@ != email@,
            decreases self.entries@.len() - i,
        {
            if self.entries[i].email == wanted {
                return Some(i);
            }
            i += 1;
        }
        None
    }
}

impl UserRepository for MemoryUserRepository {
    closed spec fn users(&self) -> Map<Seq<char>, UserView> {
        Map::new(|email: Seq<char>| self.holds(email), |email: Seq<char>| self.entries@[self.position(email)]@)
    }

    /// The store fails on its own account only when the ids have run out.
    open spec fn reliable(&self) -> bool {
        self.next_id() < i32::MAX
    }

    fn get_by_email(&self, email: &str) -> (found: Result<User, UserGetError>) {
        proof {
            use_type_invariant(self);
        }
        match self.find(email) {
            Some(i) => Ok(self.entries[i].clone()),
            None => Err(UserGetError::Missing),
        }
    }

    /// The new identity gets the next id, and the one after it is next. An
    /// insertion that is refused uses up no id.
    fn insert(&mut self, credentials: Credentials) -> (done: Result<(), UserInsertError>)
        ensures
            match done {
                Ok(()) => {
                    &&& final(self).users()[credentials.email@].id == old(self).next_id()
                    &&& final(self).next_id() == old(self).next_id() + 1
                },
                Err(_) => final(self).next_id() == old(self).next_id(),
            },
    {
        proof {
            use_type_invariant(&*self);
        }
        if self.find(credentials.email.as_str()).is_some() {
            return Err(UserInsertError::Duplicate);
        }
        if self.next_id == i32::MAX {
            return Err(UserInsertError::Unknown);
        }
        let id = self.next_id;
        let ghost before = *self;
        let mut entries: Vec<User> = Vec::new();
        core::mem::swap(&mut self.entries, &mut entries);
        entries.push(User { id, email: credentials.email, password_hash: credentials.password });
        self.next_id = id + 1;
        self.entries = entries;
        proof {
            let email = credentials.email@;
            let added = UserView { id, email, password_hash: credentials.password@ };
            let last = before.entries@.len() as int;
            assert(self.entries@[last].email@ == email);
            assert forall|e: Seq<char>| before.holds(e) implies self.holds(e) && self.position(e)
                == before.position(e) by {
                let i = before.position(e);
                assert(self.entries@[i].email@ == e);
            }
            assert forall|e: Seq<char>| self.holds(e) && e != email implies before.holds(e) by {
                let i = self.position(e);
                assert(before.entries@[i].email@ == e);
            }
            assert(unused_id(before.users(), id)) by {
                assert forall|e: Seq<char>| before.users().contains_key(e) implies (
                #[trigger] before.users()[e]).id != id by {
                    let i = before.position(e);
                    assert(before.entries@[i].id < id);
                }
            }
            assert(self.users() =~= before.users().insert(email, added));
        }
        Ok(())
    }
}

} // verus!

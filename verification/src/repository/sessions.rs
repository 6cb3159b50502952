//! The session store: sessions, found by token.

use vstd::prelude::*;
use crate::domain::sessions::{Session, SessionView};

verus! {

/// Why a session could not be read.
#[derive(Debug, Clone, Copy, PartialEq, Eq)]
pub enum SessionGetError {
    /// No session has that token.
    Missing,
    /// The store itself failed.
    Unknown,
}

/// Why a session could not be deleted.
#[derive(Debug, Clone, Copy, PartialEq, Eq)]
pub enum SessionDeleteError {
    /// The store itself failed.
    Unknown,
}

/// Why a session could not be stored.
#[derive(Debug, Clone, Copy, PartialEq, Eq)]
pub enum SessionInsertError {
    /// The store itself failed, or the token is already in use.
    Unknown,
}

/// A store of sessions. Its contents are a map from token to session; a
/// token names at most one session.
pub trait SessionRepository {
    /// The sessions in the store, by token. Left open unless an
    /// implementation states it.
    open spec fn sessions(&self) -> Map<Seq<char>, SessionView> {
        arbitrary()
    }

    /// The store cannot fail on its own account: it then refuses only a
    /// session whose token is already in use. No call changes this. False
    /// unless an implementation states otherwise.
    open spec fn reliable(&self) -> bool {
        false
    }

    /// Stores `session` under its token. Nothing is stored over a session
    /// that has the same token.
    fn insert(&mut self, session: &Session) -> (done: Result<(), SessionInsertError>)
        ensures
            match done {
                Ok(()) => {
                    &&& !old(self).sessions().contains_key(session.id@)
                    &&& final(self).sessions() == old(self).sessions().insert(
                        session.id@,
                        session@,
                    )
                },
                Err(SessionInsertError::Unknown) => {
                    &&& final(self).sessions() == old(self).sessions()
                    &&& old(self).reliable() ==> old(self).sessions().contains_key(session.id@)
                },
            },
            final(self).reliable() == old(self).reliable(),
    ;

    /// The session with the token `id`.
    fn get(&self, id: &str) -> (found: Result<Session, SessionGetError>)
        ensures
            match found {
                Ok(session) => {
                    &&& self.sessions().contains_key(id@)
                    &&& session@ == self.sessions()[id@]
                    &&& session.id@ == id@
                },
                Err(SessionGetError::Missing) => !self.sessions().contains_key(id@),
                Err(SessionGetError::Unknown) => !self.reliable(),
            },
    ;

    /// Deletes the session with the token `id`. Where there is none, nothing
    /// changes and that is no error.
    fn delete(&mut self, id: &str) -> (done: Result<(), SessionDeleteError>)
        ensures
            match done {
                Ok(()) => final(self).sessions() == old(self).sessions().remove(id@),
                Err(SessionDeleteError::Unknown) => {
                    &&& !old(self).reliable()
                    &&& final(self).sessions() == old(self).sessions()
                },
            },
            final(self).reliable() == old(self).reliable(),
    ;
}

/// A session store held in memory. It never fails on its own account.
#[derive(Debug)]
pub struct MemorySessionRepository {
    entries: Vec<Session>,
}

impl MemorySessionRepository {
    #[verifier::type_invariant]
    spec fn consistent(&self) -> bool {
        forall|i: int, j: int|
            0 <= i < j < self.entries@.len() ==> self.entries@[i].id@ != self.entries@[j].id@
    }

    spec fn holds(&self, id: Seq<char>) -> bool {
        exists|i: int| 0 <= i < self.entries@.len() && self.entries@[i].id@ == id
    }

    spec fn position(&self, id: Seq<char>) -> int {
        choose|i: int| 0 <= i < self.entries@.len() && self.entries@[i].id@ == id
    }

    /// An empty store.
    pub fn new() -> (store: Self)
        ensures
            store.sessions() == Map::<Seq<char>, SessionView>::empty(),
            store.reliable(),
    {
        let store = MemorySessionRepository { entries: Vec::new() };
        assert(store.sessions() =~= Map::<Seq<char>, SessionView>::empty());
        store
    }

    /// The index of the session with the token `id`.
    fn find(&self, id: &str) -> (at: Option<usize>)
        ensures
            match at {
                Some(i) => i < self.entries@.len() && self.entries@[i as int].id@ == id@,
                None => !self.holds(id@),
            },
    {
        let wanted = id.to_owned();
        let mut i: usize = 0;
        while i < self.entries.len()
            invariant
                i <= self.entries@.len(),
                wanted@ == id@,
                forall|j: int| 0 <= j < i ==> self.entries@[j].id@ != id@,
            decreases self.entries@.len() - i,
        {
            if self.entries[i].id == wanted {
                return Some(i);
            }
            i += 1;
        }
        None
    }
}

impl SessionRepository for MemorySessionRepository {
    closed spec fn sessions(&self) -> Map<Seq<char>, SessionView> {
        Map::new(|id: Seq<char>| self.holds(id), |id: Seq<char>| self.entries@[self.position(id)]@)
    }

    closed spec fn reliable(&self) -> bool {
        true
    }

    fn insert(&mut self, session: &Session) -> (done: Result<(), SessionInsertError>) {
        proof {
            use_type_invariant(&*self);
        }
        if self.find(session.id.as_str()).is_some() {
            return Err(SessionInsertError::Unknown);
        }
        let ghost before = *self;
        let mut entries: Vec<Session> = Vec::new();
        core::mem::swap(&mut self.entries, &mut entries);
        entries.push(session.clone());
        self.entries = entries;
        proof {
            let id = session.id@;
            let last = before.entries@.len() as int;
            assert(self.entries@[last].id@ == id);
            assert forall|t: Seq<char>| before.holds(t) implies self.holds(t) && self.position(t)
                == before.position(t) by {
                let i = before.position(t);
                assert(self.entries@[i].id@ == t);
            }
            assert forall|t: Seq<char>| self.holds(t) && t != id implies before.holds(t) by {
                let i = self.position(t);
                assert(before.entries@[i].id@ == t);
            }
            assert(self.sessions() =~= before.sessions().insert(id, session@));
        }
        Ok(())
    }

    fn get(&self, id: &str) -> (found: Result<Session, SessionGetError>) {
        proof {
            use_type_invariant(self);
        }
        match self.find(id) {
            Some(i) => Ok(self.entries[i].clone()),
            None => Err(SessionGetError::Missing),
        }
    }

    fn delete(&mut self, id: &str) -> (done: Result<(), SessionDeleteError>) {
        proof {
            use_type_invariant(&*self);
        }
        let ghost before = *self;
        match self.find(id) {
            Some(at) => {
                let mut entries: Vec<Session> = Vec::new();
                core::mem::swap(&mut self.entries, &mut entries);
                entries.remove(at);
                self.entries = entries;
                proof {
                    let gone = at as int;
                    assert forall|t: Seq<char>| t != id@ && before.holds(t) implies self.holds(t)
                        && self.entries@[self.position(t)] == before.entries@[before.position(
                        t,
                    )] by {
                        let i = before.position(t);
                        let k = if i < gone {
                            i
                        } else {
                            i - 1
                        };
                        assert(self.entries@[k].id@ == t);
                    }
                    assert forall|t: Seq<char>| self.holds(t) implies before.holds(t) by {
                        let i = self.position(t);
                        let k = if i < gone {
                            i
                        } else {
                            i + 1
                        };
                        assert(before.entries@[k].id@ == t);
                    }
                    assert(self.sessions() =~= before.sessions().remove(id@));
                }
            },
            None => {
                assert(self.sessions() =~= before.sessions().remove(id@));
            },
        }
        Ok(())
    }
}

} // verus!

//! Server-side sessions.

use vstd::prelude::*;
use crate::domain::users::{User, UserView};

verus! {

/// A session: the token that names it, the identity it is bound to, and the
/// instant, in seconds since the epoch, at which it lapses.
#[derive(Debug, PartialEq)]
pub struct Session {
    pub id: String,
    pub user: User,
    pub expires: i64,
}

/// What a `Session` stands for in contracts.
pub struct SessionView {
    pub id: Seq<char>,
    pub user: UserView,
    pub expires: i64,
}

impl View for Session {
    type V = SessionView;

    open spec fn view(&self) -> SessionView {
        SessionView { id: self.id@, user: self.user@, expires: self.expires }
    }
}

impl Clone for Session {
    fn clone(&self) -> (copy: Self)
        ensures
            copy@ == self@,
    {
        Session { id: self.id.clone(), user: self.user.clone(), expires: self.expires }
    }
}

} // verus!

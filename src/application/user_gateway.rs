//! Persistence contracts for users, and an in-memory store that follows them.

use vstd::prelude::*;
use crate::domain::field_errors::text_equal;
use crate::domain::user::{User, UserId, UserView};

verus! {

/// Looks users up.
pub trait UserReader {
    fn get_by_username(&self, username: &str) -> Option<User>;

    fn get_all(&self) -> Vec<User>;
}

/// Stores a user, inserting or updating by identifier.
pub trait UserWriter {
    fn save(&mut self, user: &User);
}

/// Deletes a user by identifier; an unknown identifier is no error.
pub trait UserRemover {
    fn remove(&mut self, user_id: &UserId);
}

/// All three capabilities together.
pub trait UserGateway: UserReader + UserWriter + UserRemover {
}

/// The views of a list of users.
pub open spec fn user_views(v: Seq<User>) -> Seq<UserView> {
    v.map_values(|u: User| u@)
}

/// Users under another identifier than `id`.
pub open spec fn other_id(id: Seq<char>) -> spec_fn(UserView) -> bool {
    |u: UserView| u.id != id
}

/// The users left after removing identifier `id`.
pub open spec fn without_user(s: Seq<UserView>, id: Seq<char>) -> Seq<UserView> {
    s.filter(other_id(id))
}

/// The users after `save(u)`: any user under the same identifier is
/// replaced, and `u` comes last.
pub open spec fn upsert_user(s: Seq<UserView>, u: UserView) -> Seq<UserView> {
    without_user(s, u.id).push(u)
}

/// Users held in memory, in order of storage.
pub struct InMemoryUserGateway {
    users: Vec<User>,
}

impl View for InMemoryUserGateway {
    type V = Seq<UserView>;

    closed spec fn view(&self) -> Seq<UserView> {
        user_views(self.users@)
    }
}

impl InMemoryUserGateway {
    /// A store holding `users`, in that order.
    pub fn new(users: Vec<User>) -> (r: InMemoryUserGateway)
        ensures
            r@ == user_views(users@),
    {
        InMemoryUserGateway { users }
    }

    /// Number of stored users.
    pub fn len(&self) -> (r: usize)
        ensures
            r == self@.len(),
    {
        self.users.len()
    }

    /// The first stored user named `username`.
    pub fn find_by_username(&self, username: &str) -> (r: Option<User>)
        ensures
            match r {
                Some(u) => exists|i: int|
                    0 <= i < self@.len() && #[trigger] self@[i] == u@ && u.username@ == username@,
                None => forall|i: int| 0 <= i < self@.len() ==> #[trigger] self@[i].username != username@,
            },
    {
        let mut i: usize = 0;
        while i < self.users.len()
            invariant
                i <= self@.len(),
                self@.len() == self.users@.len(),
                forall|j: int| 0 <= j < i ==> #[trigger] self@[j].username != username@,
            decreases self.users.len() - i,
        {
            assert(self@[i as int] == self.users@[i as int]@);
            if text_equal(self.users[i].username.as_str(), username) {
                let u = self.users[i].duplicate();
                assert(self@[i as int] == u@);
                return Some(u);
            }
            i = i + 1;
        }
        None
    }

    /// Every stored user, in order.
    pub fn all(&self) -> (r: Vec<User>)
        ensures
            user_views(r@) == self@,
    {
        let mut out: Vec<User> = Vec::new();
        let mut i: usize = 0;
        while i < self.users.len()
            invariant
                i <= self@.len(),
                self@.len() == self.users@.len(),
                user_views(out@) =~= self@.take(i as int),
            decreases self.users.len() - i,
        {
            assert(self@[i as int] == self.users@[i as int]@);
            let ghost before = out@;
            let u = self.users[i].duplicate();
            assert(u@ == self@[i as int]);
            out.push(u);
            assert(user_views(out@) =~= user_views(before).push(self@[i as int]));
            assert(user_views(out@) =~= self@.take(i + 1));
            i = i + 1;
        }
        assert(self@.take(self@.len() as int) =~= self@);
        out
    }

    /// Removes every user stored under `id`.
    pub fn delete(&mut self, id: &str)
        ensures
            final(self)@ == without_user(old(self)@, id@),
    {
        let ghost s = self@;
        let mut kept: Vec<User> = Vec::new();
        let mut i: usize = 0;
        proof {
            reveal(Seq::filter);
        }
        assert(s.take(0) =~= Seq::<UserView>::empty());
        assert(user_views(kept@) =~= s.take(0).filter(other_id(id@)));
        while i < self.users.len()
            invariant
                i <= s.len(),
                s == self@,
                s.len() == self.users@.len(),
                user_views(kept@) =~= s.take(i as int).filter(other_id(id@)),
            decreases self.users.len() - i,
        {
            proof {
                reveal(Seq::filter);
            }
            assert(s[i as int] == self.users@[i as int]@);
            assert(s.take(i + 1).drop_last() =~= s.take(i as int));
            assert(s.take(i + 1).last() == s[i as int]);
            if !text_equal(self.users[i].id.as_str(), id) {
                kept.push(self.users[i].duplicate());
                assert(user_views(kept@) =~= s.take(i + 1).filter(other_id(id@)));
            } else {
                assert(user_views(kept@) =~= s.take(i + 1).filter(other_id(id@)));
            }
            i = i + 1;
        }
        assert(s.take(s.len() as int) =~= s);
        self.users = kept;
    }

    /// Stores `user`, replacing any user under the same identifier.
    pub fn store(&mut self, user: &User)
        ensures
            final(self)@ == upsert_user(old(self)@, user@),
    {
        self.delete(user.id.as_str());
        self.users.push(user.duplicate());
        assert(self@ =~= upsert_user(old(self)@, user@));
    }
}

impl UserReader for InMemoryUserGateway {
    fn get_by_username(&self, username: &str) -> (r: Option<User>)
        ensures
            match r {
                Some(u) => exists|i: int|
                    0 <= i < self@.len() && #[trigger] self@[i] == u@ && u.username@ == username@,
                None => forall|i: int| 0 <= i < self@.len() ==> #[trigger] self@[i].username != username@,
            },
    {
        self.find_by_username(username)
    }

    fn get_all(&self) -> (r: Vec<User>)
        ensures
            user_views(r@) == self@,
    {
        self.all()
    }
}

impl UserWriter for InMemoryUserGateway {
    fn save(&mut self, user: &User)
        ensures
            final(self)@ == upsert_user(old(self)@, user@),
    {
        self.store(user)
    }
}

impl UserRemover for InMemoryUserGateway {
    fn remove(&mut self, user_id: &UserId)
        ensures
            final(self)@ == without_user(old(self)@, user_id@),
    {
        self.delete(user_id.as_str())
    }
}

impl UserGateway for InMemoryUserGateway {
}

/// Removing one identifier twice removes no more than once.
proof fn lemma_without_user_twice(s: Seq<UserView>, id: Seq<char>)
    ensures
        without_user(without_user(s, id), id) == without_user(s, id),
    decreases s.len(),
{
    reveal(Seq::filter);
    if s.len() > 0 {
        lemma_without_user_twice(s.drop_last(), id);
        let t = s.drop_last().filter(other_id(id));
        if s.last().id != id {
            assert(t.push(s.last()).drop_last() =~= t);
        }
    } else {
        assert(s.filter(other_id(id)) =~= s);
    }
}

/// Saving the same user twice leaves the store as saving it once.
pub proof fn lemma_save_user_idempotent(s: Seq<UserView>, u: UserView)
    ensures
        upsert_user(upsert_user(s, u), u) == upsert_user(s, u),
{
    reveal(Seq::filter);
    let t = without_user(s, u.id);
    assert(t.push(u).drop_last() =~= t);
    lemma_without_user_twice(s, u.id);
}

/// Removing the same identifier twice leaves the store as removing it once,
/// and no user under it remains.
pub proof fn lemma_remove_user_idempotent(s: Seq<UserView>, id: Seq<char>)
    ensures
        without_user(without_user(s, id), id) == without_user(s, id),
        forall|i: int| 0 <= i < without_user(s, id).len() ==> #[trigger] without_user(s, id)[i].id != id,
{
    lemma_without_user_twice(s, id);
    s.filter_lemma(other_id(id));
}

} // verus!

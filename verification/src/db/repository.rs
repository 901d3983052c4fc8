//! The store that keeps the users.
use vstd::prelude::*;
use crate::db::models::{User, UserView};
use crate::errors::UserDBError;

verus! {

/// A store of users, each kept under its address.
///
/// An implementation answers for what it holds: a user that it hands out is
/// the one it holds under the address asked for, and an update takes effect
/// wholly or not at all. A store may fail at any time, unless it says of
/// itself that it never does.
pub trait UserRepository {
    /// The users that the store holds, each under its address.
    ///
    /// A store says here what it holds; one that does not say so holds
    /// something of which nothing is known.
    open spec fn users(&self) -> Map<Seq<char>, UserView> {
        arbitrary()
    }

    /// Whether the store never fails: whether it hands out every user that
    /// it holds and takes every update of one. A store that does not say
    /// so may fail.
    open spec fn never_fails(&self) -> bool {
        false
    }

    /// Fetches the user kept under `email`.
    ///
    /// A user that is handed out is the one that the store holds under
    /// `email`, and has that address. A store that never fails hands out
    /// every user that it holds.
    fn get_user(&self, email: &str) -> (found: Result<User, UserDBError>)
        ensures
            found matches Ok(user) ==> {
                &&& self.users().contains_key(email@)
                &&& user@ == self.users()[email@]
                &&& user@.email == email@
            },
            self.never_fails() && self.users().contains_key(email@) ==> found is Ok,
    ;

    /// Replaces the user kept under the address of `user` by `user`.
    ///
    /// A successful update of a user that the store holds leaves `user` in
    /// that user's place and every other user as it was; what a successful
    /// update of any other user does is left open. A failed update leaves
    /// the store as it was. A store that never fails takes every update of
    /// a user that it holds, and goes on never failing.
    fn update_user(&mut self, user: &User) -> (done: Result<(), UserDBError>)
        ensures
            done is Ok && old(self).users().contains_key(user@.email) ==> final(self).users()
                == old(self).users().insert(user@.email, user@),
            done is Err ==> final(self).users() == old(self).users(),
            old(self).never_fails() && old(self).users().contains_key(user@.email)
                ==> done is Ok,
            final(self).never_fails() == old(self).never_fails(),
    ;
}

/// A store that keeps its users in memory.
///
/// Of several entries with one address only the first counts; the store
/// itself never makes a second.
pub struct MemoryUserRepository {
    entries: Vec<User>,
}

impl MemoryUserRepository {
    /// Whether entry `i` exists and has the address `email`.
    spec fn at(self, i: int, email: Seq<char>) -> bool {
        0 <= i < self.entries@.len() && self.entries@[i]@.email == email
    }

    /// Whether entry `i` is the first with the address `email`.
    spec fn first_at(self, i: int, email: Seq<char>) -> bool {
        self.at(i, email) && forall|k: int| 0 <= k < i ==> !self.at(k, email)
    }

    /// The first entry with the address `email`, where there is one.
    spec fn index_of(self, email: Seq<char>) -> int {
        choose|i: int| self.first_at(i, email)
    }

    /// The store holds under `email` what its first entry with that address
    /// holds.
    proof fn holds_first(self, i: int, email: Seq<char>)
        requires
            self.first_at(i, email),
        ensures
            self.users().contains_key(email),
            self.users()[email] == self.entries@[i]@,
    {
        let j = self.index_of(email);
        assert(self.first_at(j, email));
        if i < j {
            assert(self.at(i, email));
        } else if j < i {
            assert(self.at(j, email));
        }
    }

    /// The store holds nothing under an address that no entry has.
    proof fn holds_none(self, email: Seq<char>)
        requires
            forall|i: int| !self.at(i, email),
        ensures
            !self.users().contains_key(email),
    {
        if self.users().contains_key(email) {
            let i = choose|i: int| self.first_at(i, email);
            assert(self.at(i, email));
        }
    }

    /// A store that differs from this one in the first entry for the
    /// address of `user`, which there holds `user`, holds what this one
    /// holds, with `user` under that address.
    proof fn replaced(self, after: Self, place: int, user: UserView)
        requires
            self.first_at(place, user.email),
            after.entries@.len() == self.entries@.len(),
            after.entries@[place]@ == user,
            forall|k: int|
                0 <= k < self.entries@.len() && k != place ==> after.entries@[k]@
                    == self.entries@[k]@,
        ensures
            after.users() == self.users().insert(user.email, user),
    {
        assert forall|k: int, e: Seq<char>| self.at(k, e) == after.at(k, e) by {}
        assert forall|k: int, e: Seq<char>| self.first_at(k, e) == after.first_at(k, e) by {}
        let expected = self.users().insert(user.email, user);
        assert forall|e: Seq<char>| after.users().contains_key(e) implies after.users()[e]
            == expected[e] by {
            let k = after.index_of(e);
            after.holds_first(k, e);
            if e == user.email {
                after.holds_first(place, e);
            } else {
                self.holds_first(k, e);
            }
        }
        assert(after.users() =~= expected);
    }

    /// A store that has one entry more than this one, for `user`, whose
    /// address no entry of this one has, holds what this one holds, with
    /// `user` under that address.
    proof fn appended(self, after: Self, user: UserView)
        requires
            forall|i: int| !self.at(i, user.email),
            after.entries@.len() == self.entries@.len() + 1,
            after.entries@[self.entries@.len() as int]@ == user,
            forall|k: int|
                0 <= k < self.entries@.len() ==> after.entries@[k]@ == self.entries@[k]@,
        ensures
            after.users() == self.users().insert(user.email, user),
    {
        let n = self.entries@.len() as int;
        assert forall|k: int, e: Seq<char>| k != n implies self.at(k, e) == after.at(k, e) by {}
        assert forall|k: int, e: Seq<char>| k != n implies self.first_at(k, e) == after.first_at(
            k,
            e,
        ) by {}
        assert(after.first_at(n, user.email)) by {
            assert forall|m: int| 0 <= m < n implies !after.at(m, user.email) by {
                assert(!self.at(m, user.email));
            }
        }
        let expected = self.users().insert(user.email, user);
        assert forall|e: Seq<char>| after.users().contains_key(e) == expected.contains_key(e) by {
            if after.users().contains_key(e) && e != user.email {
                let k = after.index_of(e);
                assert(self.first_at(k, e));
            }
            if self.users().contains_key(e) {
                let k = self.index_of(e);
                assert(after.first_at(k, e));
            }
        }
        assert forall|e: Seq<char>| after.users().contains_key(e) implies after.users()[e]
            == expected[e] by {
            let k = after.index_of(e);
            after.holds_first(k, e);
            if e == user.email {
                after.holds_first(n, e);
            } else {
                self.holds_first(k, e);
            }
        }
        assert(after.users() =~= expected);
    }

    /// A store that holds no user.
    pub fn new() -> (repository: MemoryUserRepository)
        ensures
            repository.users() == Map::<Seq<char>, UserView>::empty(),
    {
        let repository = MemoryUserRepository { entries: Vec::new() };
        assert(repository.users() =~= Map::<Seq<char>, UserView>::empty());
        repository
    }

    /// The place of the first user with the address `email`, if there is one.
    fn position(&self, email: &str) -> (place: Option<usize>)
        ensures
            match place {
                Some(i) => self.first_at(i as int, email@),
                None => forall|i: int| !self.at(i, email@),
            },
    {
        let mut i: usize = 0;
        while i < self.entries.len()
            invariant
                i <= self.entries@.len(),
                forall|k: int| 0 <= k < i ==> !self.at(k, email@),
            decreases self.entries@.len() - i,
        {
            if self.entries[i].has_email(email) {
                return Some(i);
            }
            i += 1;
        }
        None
    }

    /// Adds `user` to the store, unless a user is already kept under its
    /// address.
    pub fn create_user(&mut self, user: User) -> (done: Result<(), UserDBError>)
        ensures
            match done {
                Ok(_) => {
                    &&& !old(self).users().contains_key(user@.email)
                    &&& final(self).users() == old(self).users().insert(user@.email, user@)
                },
                Err(e) => {
                    &&& e == UserDBError::CreateUserError
                    &&& old(self).users().contains_key(user@.email)
                    &&& final(self).users() == old(self).users()
                },
            },
    {
        let email = user.get_email();
        match self.position(email.as_str()) {
            Some(i) => {
                proof {
                    self.holds_first(i as int, user@.email);
                }
                Err(UserDBError::CreateUserError)
            },
            None => {
                let ghost before = *self;
                self.entries.push(user);
                proof {
                    before.holds_none(user@.email);
                    before.appended(*self, user@);
                }
                Ok(())
            },
        }
    }
}

impl UserRepository for MemoryUserRepository {
    closed spec fn users(&self) -> Map<Seq<char>, UserView> {
        Map::new(
            |email: Seq<char>| exists|i: int| self.first_at(i, email),
            |email: Seq<char>| self.entries@[self.index_of(email)]@,
        )
    }

    open spec fn never_fails(&self) -> bool {
        true
    }

    fn get_user(&self, email: &str) -> (found: Result<User, UserDBError>)
        ensures
            found is Ok <==> self.users().contains_key(email@),
            found matches Err(e) ==> e == UserDBError::GetUserError,
    {
        match self.position(email) {
            Some(i) => {
                proof {
                    self.holds_first(i as int, email@);
                }
                Ok(self.entries[i].clone())
            },
            None => {
                proof {
                    self.holds_none(email@);
                }
                Err(UserDBError::GetUserError)
            },
        }
    }

    fn update_user(&mut self, user: &User) -> (done: Result<(), UserDBError>)
        ensures
            done is Ok <==> old(self).users().contains_key(user@.email),
            done matches Err(e) ==> e == UserDBError::UpdateUserError,
    {
        let email = user.get_email();
        match self.position(email.as_str()) {
            Some(i) => {
                let ghost before = *self;
                self.entries.set(i, user.clone());
                proof {
                    before.holds_first(i as int, user@.email);
                    before.replaced(*self, i as int, user@);
                }
                Ok(())
            },
            None => {
                proof {
                    self.holds_none(user@.email);
                }
                Err(UserDBError::UpdateUserError)
            },
        }
    }
}

} // verus!

//! The users table: who uses the bot, who administers it, and the rules for
//! adding users and admins. A `Storage` holds the table's rows; reading them
//! from the database and writing them back is the caller's part.

pub mod laws;
pub mod models;

use crate::error::Error;
use models::User;
use std::marker::PhantomData;
use vstd::prelude::*;
use vstd::string::*;

verus! {

/// The statement that creates the users table: the Telegram user id as its
/// key, the chat where the user can be reached, the admin flag and the
/// user's language.
pub const CREATE_USERS: &'static str = "CREATE TABLE IF NOT EXISTS users (
    id BIGINT PRIMARY KEY NOT NULL,
    chat BIGINT,
    admin BOOLEAN NOT NULL,
    language TEXT NOT NULL
)";

/// The statement that creates the posts table: a post, its chat and the
/// comma separated ids of the chats it goes to.
pub const CREATE_POSTS: &'static str = "CREATE TABLE IF NOT EXISTS posts (
    id INTEGER PRIMARY KEY NOT NULL,
    chat BIGINT NOT NULL,
    selection TEXT NOT NULL
)";

/// Builder stage: no database yet.
pub struct Initializing;

/// Builder stage: the database is open; its tables may need creating.
pub struct Migrating;

/// Builder stage: the tables exist; the storage can be built.
pub struct Finalizing;

/// The users who are admins from the start.
pub open spec fn defacto_ids() -> Seq<u64> {
    seq![7598454972u64]
}

/// The users who are admins from the start.
pub fn defacto() -> (res: Vec<u64>)
    ensures
        res@ == defacto_ids(),
{
    let mut v: Vec<u64> = Vec::new();
    v.push(7598454972u64);
    v
}

/// The stored key of a Telegram user id.
pub open spec fn key(user: u64) -> i64 {
    user as i64
}

/// Whether the table holds a row for the user.
pub open spec fn has_user(users: Seq<User>, user: u64) -> bool {
    exists|i: int| 0 <= i < users.len() && #[trigger] users[i].id == key(user)
}

/// Whether the table holds a row for the user that is marked admin.
pub open spec fn has_admin(users: Seq<User>, user: u64) -> bool {
    exists|i: int| 0 <= i < users.len() && #[trigger] users[i].id == key(user) && users[i].admin
}

/// The admin rows, in table order.
pub open spec fn admins_of(users: Seq<User>) -> Seq<User>
    decreases users.len(),
{
    if users.len() == 0 {
        seq![]
    } else if users.last().admin {
        admins_of(users.drop_last()).push(users.last())
    } else {
        admins_of(users.drop_last())
    }
}

/// The user ids of the admin rows, in table order.
pub open spec fn admin_ids_of(users: Seq<User>) -> Seq<u64>
    decreases users.len(),
{
    if users.len() == 0 {
        seq![]
    } else if users.last().admin {
        admin_ids_of(users.drop_last()).push(users.last().id as u64)
    } else {
        admin_ids_of(users.drop_last())
    }
}

/// The chats of the admin rows that have one, in table order.
pub open spec fn admin_chats_of(users: Seq<User>) -> Seq<i64>
    decreases users.len(),
{
    if users.len() == 0 {
        seq![]
    } else if users.last().admin && users.last().chat is Some {
        admin_chats_of(users.drop_last()).push(users.last().chat->0)
    } else {
        admin_chats_of(users.drop_last())
    }
}

/// No two rows share a user id (the table's primary key).
pub open spec fn unique_ids(users: Seq<User>) -> bool {
    forall|i: int, j: int|
        0 <= i < users.len() && 0 <= j < users.len() && i != j ==> #[trigger] users[i].id
            != #[trigger] users[j].id
}

/// The row that registering `user`, reachable in `chat`, stores.
pub open spec fn registered_row(row: User, user: u64, chat: i64) -> bool {
    &&& row.id == key(user)
    &&& row.chat == Some(chat)
    &&& row.admin == defacto_ids().contains(user)
    &&& row.language@ == "en"@
}

/// A row after it has been made admin.
pub open spec fn promoted(row: User) -> User {
    User { id: row.id, chat: row.chat, admin: true, language: row.language }
}

/// The table after every user whose id is below `user`'s has been made admin.
pub open spec fn promote_below(users: Seq<User>, user: u64) -> Seq<User> {
    Seq::new(
        users.len(),
        |i: int| if users[i].id < key(user) { promoted(users[i]) } else { users[i] },
    )
}

/// A builder that takes the storage through its stages in order.
#[derive(Debug)]
pub struct Builder<State> {
    database: Option<Storage>,
    _initialized: PhantomData<State>,
}

impl<State> Builder<State> {
    /// The storage this builder holds, if any.
    pub closed spec fn held(&self) -> Option<Storage> {
        self.database
    }
}

impl Default for Builder<Initializing> {
    fn default() -> (res: Self)
        ensures
            res.held() is None,
    {
        Builder { database: None, _initialized: PhantomData }
    }
}

impl Builder<Initializing> {
    /// Takes the storage read from the opened database.
    pub fn connect(self, storage: Storage) -> (res: Builder<Migrating>)
        ensures
            res.held() == Some(storage),
    {
        Builder { database: Some(storage), _initialized: PhantomData }
    }
}

impl Builder<Migrating> {
    /// Moves on once the tables exist; fails when no database was given.
    pub fn migrate(self) -> (res: Result<Builder<Finalizing>, Error>)
        ensures
            self.held() is None ==> res == Err::<Builder<Finalizing>, Error>(Error::NoDatabaseInstance),
            self.held() is Some ==> (res matches Ok(b) && b.held() == self.held()),
    {
        match self.database {
            Some(storage) => Ok(Builder { database: Some(storage), _initialized: PhantomData }),
            None => Err(Error::NoDatabaseInstance),
        }
    }
}

impl Builder<Finalizing> {
    /// The storage; fails when no database was given.
    pub fn build(self) -> (res: Result<Storage, Error>)
        ensures
            self.held() is None ==> res == Err::<Storage, Error>(Error::NoDatabaseInstance),
            self.held() matches Some(s) ==> res == Ok::<Storage, Error>(s),
    {
        match self.database {
            Some(storage) => Ok(storage),
            None => Err(Error::NoDatabaseInstance),
        }
    }
}

/// The rows of the users table.
#[derive(Debug, Clone)]
pub struct Storage {
    pub users: Vec<User>,
}

impl Storage {
    /// A builder at its first stage.
    pub fn new() -> (res: Builder<Initializing>)
        ensures
            res.held() is None,
    {
        Builder::<Initializing>::default()
    }

    /// The admin rows, in table order.
    pub fn admins(&self) -> (res: Vec<User>)
        ensures
            res@ == admins_of(self.users@),
    {
        let mut out: Vec<User> = Vec::new();
        let mut i: usize = 0;
        while i < self.users.len()
            invariant
                i <= self.users@.len(),
                out@ == admins_of(self.users@.take(i as int)),
            decreases self.users@.len() - i,
        {
            assert(self.users@.take(i + 1).drop_last() =~= self.users@.take(i as int));
            if self.users[i].admin {
                out.push(self.users[i].clone());
            }
            i = i + 1;
        }
        assert(self.users@.take(i as int) =~= self.users@);
        out
    }

    /// Whether the user has a row marked admin.
    pub fn is_admin(&self, user: u64) -> (res: bool)
        ensures
            res == has_admin(self.users@, user),
    {
        let k: i64 = #[verifier::truncate] (user as i64);
        let mut i: usize = 0;
        while i < self.users.len()
            invariant
                k == key(user),
                i <= self.users@.len(),
                forall|j: int| 0 <= j < i ==> !(self.users@[j].id == k && self.users@[j].admin),
            decreases self.users@.len() - i,
        {
            if self.users[i].id == k && self.users[i].admin {
                return true;
            }
            i = i + 1;
        }
        false
    }

    /// The user ids of the admin rows, in table order.
    pub fn admin_ids(&self) -> (res: Vec<u64>)
        ensures
            res@ == admin_ids_of(self.users@),
    {
        let mut out: Vec<u64> = Vec::new();
        let mut i: usize = 0;
        while i < self.users.len()
            invariant
                i <= self.users@.len(),
                out@ == admin_ids_of(self.users@.take(i as int)),
            decreases self.users@.len() - i,
        {
            assert(self.users@.take(i + 1).drop_last() =~= self.users@.take(i as int));
            if self.users[i].admin {
                out.push(self.users[i].user_id());
            }
            i = i + 1;
        }
        assert(self.users@.take(i as int) =~= self.users@);
        out
    }

    /// The chats of the admins that have one, in table order. It never fails:
    /// an admin without a chat is left out.
    pub fn admin_chats(&self) -> (res: Result<Vec<i64>, Error>)
        ensures
            res matches Ok(v) && v@ == admin_chats_of(self.users@),
    {
        let mut out: Vec<i64> = Vec::new();
        let mut i: usize = 0;
        while i < self.users.len()
            invariant
                i <= self.users@.len(),
                out@ == admin_chats_of(self.users@.take(i as int)),
            decreases self.users@.len() - i,
        {
            assert(self.users@.take(i + 1).drop_last() =~= self.users@.take(i as int));
            if self.users[i].admin {
                match self.users[i].chat {
                    Some(c) => out.push(c),
                    None => {},
                }
            }
            i = i + 1;
        }
        assert(self.users@.take(i as int) =~= self.users@);
        Ok(out)
    }

    /// Whether the user has a row.
    pub fn user_exists(&self, user: u64) -> (res: bool)
        ensures
            res == has_user(self.users@, user),
    {
        let k: i64 = #[verifier::truncate] (user as i64);
        let mut i: usize = 0;
        while i < self.users.len()
            invariant
                k == key(user),
                i <= self.users@.len(),
                forall|j: int| 0 <= j < i ==> self.users@[j].id != k,
            decreases self.users@.len() - i,
        {
            if self.users[i].id == k {
                return true;
            }
            i = i + 1;
        }
        false
    }

    /// Registers a user reachable in `chat`. A user who already has a row is
    /// refused with `ReturningUser` and nothing changes; otherwise the new
    /// row (admin exactly when the user is one of `defacto`, language "en")
    /// is added at the end and handed back.
    pub fn add_user(&mut self, user: u64, chat: i64) -> (res: Result<User, Error>)
        ensures
            has_user(old(self).users@, user) ==> {
                &&& res == Err::<User, Error>(Error::ReturningUser)
                &&& final(self).users@ == old(self).users@
            },
            !has_user(old(self).users@, user) ==> (res matches Ok(row) && {
                &&& registered_row(row, user, chat)
                &&& final(self).users@ == old(self).users@.push(row)
            }),
    {
        if self.user_exists(user) {
            return Err(Error::ReturningUser);
        }
        let ids = defacto();
        let mut admin = false;
        let mut i: usize = 0;
        while i < ids.len()
            invariant
                ids@ == defacto_ids(),
                i <= ids@.len(),
                admin == exists|j: int| 0 <= j < i && ids@[j] == user,
            decreases ids@.len() - i,
        {
            if ids[i] == user {
                admin = true;
            }
            i = i + 1;
        }
        let row = User {
            id: #[verifier::truncate] (user as i64),
            chat: Some(chat),
            admin,
            language: String::from_str("en"),
        };
        self.users.push(row.clone());
        Ok(row)
    }

    /// Makes every user whose id is below `user`'s an admin. Fails with a
    /// `ProxyError` when `user` is already an admin, and then changes nothing.
    pub fn add_admin(&mut self, user: u64) -> (res: Result<(), Error>)
        ensures
            has_admin(old(self).users@, user) ==> {
                &&& res matches Err(Error::ProxyError(m)) && m@ == "User already is in admins list!"@
                &&& final(self).users@ == old(self).users@
            },
            !has_admin(old(self).users@, user) ==> {
                &&& res is Ok
                &&& final(self).users@ == promote_below(old(self).users@, user)
            },
    {
        if self.is_admin(user) {
            return Err(Error::ProxyError(String::from_str("User already is in admins list!")));
        }
        let k: i64 = #[verifier::truncate] (user as i64);
        let ghost before = self.users@;
        let mut i: usize = 0;
        while i < self.users.len()
            invariant
                k == key(user),
                self.users@.len() == before.len(),
                i <= before.len(),
                forall|j: int| 0 <= j < i ==> #[trigger] self.users@[j] == promote_below(before, user)[j],
                forall|j: int| i <= j < before.len() ==> #[trigger] self.users@[j] == before[j],
            decreases before.len() - i,
        {
            if self.users[i].id < k {
                let mut row = self.users[i].clone();
                row.admin = true;
                self.users.set(i, row);
            }
            i = i + 1;
        }
        assert(self.users@ =~= promote_below(before, user));
        Ok(())
    }
}

} // verus!

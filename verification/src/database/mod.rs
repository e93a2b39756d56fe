//! The turso-backed database: a builder that takes it through its stages,
//! and the statements that lay out and fill its tables.

pub mod prelude;

use crate::error::Error;
use std::marker::PhantomData;
use turso::Database as TDatabase;
use vstd::prelude::*;

verus! {

/// An opened turso database (an outside handle this library only carries).
#[verifier::external_type_specification]
#[verifier::external_body]
pub struct ExTursoDatabase(TDatabase);

/// Builder stage: no database yet.
pub struct Initializing;

/// Builder stage: the database is open; its tables may need creating.
pub struct Boostrapping;

/// The statement that creates the users table: a user id and whether the
/// user is an admin.
pub const CREATE_USERS: &'static str = "CREATE TABLE IF NOT EXISTS users (
                    id INTEGER NOT NULL,
                    admin BOOLEAN
                )";

/// The statement that creates the messages table: a message id, its chat,
/// and the comma separated ids of the chats it was sent to.
pub const CREATE_MESSAGES: &'static str = "CREATE TABLE IF NOT EXISTS messages (
                    id INTEGER NOT NULL,
                    chat INTEGER,
                    selection TEXT
                )";

/// The statement that adds a user: its id and its admin flag.
pub const INSERT_USER: &'static str = "INSERT INTO users (id, admin) VALUES (?1, ?2)";

/// The opened database.
#[derive(Debug)]
pub struct Database(pub TDatabase);

/// A builder that takes the database through its stages in order.
#[derive(Debug)]
pub struct Builder<State> {
    database: Option<TDatabase>,
    _initialized: PhantomData<State>,
}

impl<State> Builder<State> {
    /// The database this builder holds, if any.
    pub closed spec fn held(&self) -> Option<TDatabase> {
        self.database
    }
}

impl Builder<Initializing> {
    /// Takes the database that was opened at the wanted path.
    pub fn connect(self, instance: TDatabase) -> (res: Builder<Boostrapping>)
        ensures
            res.held() == Some(instance),
    {
        Builder { database: Some(instance), _initialized: PhantomData }
    }
}

impl Builder<Boostrapping> {
    /// Stays at this stage once the tables exist; fails when no database was
    /// given.
    pub fn bootstrap(self) -> (res: Result<Self, Error>)
        ensures
            self.held() is None ==> res matches Err(Error::NoDatabaseInstance),
            self.held() is Some ==> (res matches Ok(b) && b.held() == self.held()),
    {
        match self.database {
            Some(instance) => Ok(Builder { database: Some(instance), _initialized: PhantomData }),
            None => Err(Error::NoDatabaseInstance),
        }
    }

    /// The database; fails when no database was given.
    pub fn build(self) -> (res: Result<Database, Error>)
        ensures
            self.held() is None ==> res matches Err(Error::NoDatabaseInstance),
            self.held() matches Some(d) ==> (res matches Ok(db) && db.0 == d),
    {
        match self.database {
            Some(instance) => Ok(Database(instance)),
            None => Err(Error::NoDatabaseInstance),
        }
    }
}

impl Database {
    /// A builder at its first stage.
    pub fn new() -> (res: Builder<Initializing>)
        ensures
            res.held() is None,
    {
        Builder { database: None, _initialized: PhantomData }
    }

    /// The values `INSERT_USER` adds for a new user: its id, and 0 for "not
    /// an admin".
    pub fn user_values(id: u64) -> (res: [u64; 2])
        ensures
            res@ == seq![id, 0u64],
    {
        let values: [u64; 2] = [id, 0];
        assert(values@ =~= seq![id, 0u64]);
        values
    }

    /// The admins; nothing is read yet, so this always succeeds.
    pub fn get_admins(&self) -> (res: Result<(), Error>)
        ensures
            res is Ok,
    {
        Ok(())
    }
}

} // verus!

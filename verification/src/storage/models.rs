//! The rows of the bot's tables, as plain values.

use vstd::prelude::*;

verus! {

/// A row of the `posts` table: a channel post and the chats it goes to, as
/// a comma separated list of chat ids.
#[derive(Debug, PartialEq, Eq)]
pub struct Post {
    pub id: i32,
    pub chat: i64,
    pub selection: String,
}

/// A row of the `users` table.
#[derive(Debug, PartialEq, Eq)]
pub struct User {
    /// The Telegram user id, stored as a signed 64-bit integer.
    pub id: i64,
    /// The private chat with the user, where the bot can reach them.
    pub chat: Option<i64>,
    pub admin: bool,
    pub language: String,
}

impl Clone for User {
    fn clone(&self) -> (res: Self)
        ensures
            res == *self,
    {
        User { id: self.id, chat: self.chat, admin: self.admin, language: self.language.clone() }
    }
}

impl User {
    /// The Telegram user id of this row (the stored id read back as unsigned).
    pub fn user_id(&self) -> (res: u64)
        ensures
            res == self.id as u64,
    {
        #[verifier::truncate] (self.id as u64)
    }
}

/// The Telegram user id of a row (its stored id read back as unsigned).
impl From<User> for u64 {
    fn from(value: User) -> (res: u64) {
        #[verifier::truncate] (value.id as u64)
    }
}

impl vstd::std_specs::convert::FromSpecImpl<User> for u64 {
    open spec fn obeys_from_spec() -> bool {
        true
    }

    open spec fn from_spec(v: User) -> u64 {
        v.id as u64
    }
}

/// The Telegram user id of a row (its stored id read back as unsigned).
impl From<&User> for u64 {
    fn from(value: &User) -> (res: u64) {
        #[verifier::truncate] (value.id as u64)
    }
}

impl vstd::std_specs::convert::FromSpecImpl<&User> for u64 {
    open spec fn obeys_from_spec() -> bool {
        true
    }

    open spec fn from_spec(v: &User) -> u64 {
        v.id as u64
    }
}

} // verus!

//! `/start`: registers the user and greets them.

use crate::error::Error;
use crate::storage::models::User;
use crate::storage::{has_user, registered_row, Storage};
use vstd::prelude::*;

verus! {

/// The greeting of a user who was just registered.
pub const TEXT_S: &'static str = "\n<b>Welcome to announcer bot!</b>\n\nThis bot should supposedly help you with your announcement stuff.\n";

/// The greeting of a user who was registered before.
pub const TEXT_R: &'static str = "\n<b>Hello returning user!</b>\n\nYou already know the drill, so welcome back...\n";

/// The greeting when registering the user failed.
pub const TEXT_F: &'static str = "\n<b>Welcome to announcer bot!</b>\n\nThis bot should supposedly help you with your announcement stuff. However, there was a trouble while signing you to our database, please try /start command later to complete signing up...\n";

/// The reply to a message that has no sender.
pub const NOT_A_PERSON: &'static str = "Are you even real?! You don't seem a person...";

/// The text of the button under every greeting.
pub const KEYBOARD_TEXT: &'static str = "Maybe read more?";

/// The address the button under every greeting leads to.
pub const KEYBOARD_URL: &'static str = "https://github.com/bleur-org/templates/tree/main/rust-telegram";

/// The greeting for the outcome of registering the user.
pub fn reply(outcome: &Result<User, Error>) -> (res: &'static str)
    ensures
        outcome is Ok ==> res == TEXT_S,
        outcome matches Err(Error::ReturningUser) ==> res == TEXT_R,
        (outcome is Err && !(outcome matches Err(Error::ReturningUser))) ==> res == TEXT_F,
{
    match outcome {
        Ok(_) => TEXT_S,
        Err(Error::ReturningUser) => TEXT_R,
        Err(_) => TEXT_F,
    }
}

/// Answers `/start` from `from` (if the message has a sender) in `chat`:
/// registers the sender and greets them.
pub fn command(db: &mut Storage, from: Option<u64>, chat: i64) -> (res: &'static str)
    ensures
        from is None ==> res == NOT_A_PERSON && final(db).users@ == old(db).users@,
        (match from {
            Some(u) => if has_user(old(db).users@, u) {
                res == TEXT_R && final(db).users@ == old(db).users@
            } else {
                res == TEXT_S && final(db).users@.len() == old(db).users@.len() + 1
                    && final(db).users@.drop_last() == old(db).users@ && registered_row(
                    final(db).users@.last(),
                    u,
                    chat,
                )
            },
            None => true,
        }),
{
    match from {
        None => NOT_A_PERSON,
        Some(u) => {
            let outcome = db.add_user(u, chat);
            proof {
                if !has_user(old(db).users@, u) {
                    assert(db.users@.drop_last() =~= old(db).users@);
                }
            }
            reply(&outcome)
        },
    }
}

} // verus!

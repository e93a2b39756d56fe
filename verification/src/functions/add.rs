//! `/add <id>`: makes users admins.

use crate::storage::{has_admin, promote_below, Storage};
use crate::text::{
    decimal, parse_u64, parse_u64_spec, remove_all, remove_all_spec, trim, trim_spec,
};
use vstd::prelude::*;
use vstd::string::*;

verus! {

/// The reply to an `/add` message without text.
pub const NO_ID: &'static str = "I don't think you've written an id?!";

/// The reply to an `/add` message whose text is not a user id.
pub const INVALID_ID: &'static str = "I don't think you've written a valid id?!";

/// The user id an `/add` message names: its text without every "/add",
/// trimmed, read as an unsigned number.
pub open spec fn admin_id_spec(text: Seq<char>) -> Option<u64> {
    parse_u64_spec(trim_spec(remove_all_spec(text, "/add"@)))
}

/// The user id an `/add` message names, if it names one.
pub fn parse_admin_id(text: &str) -> (res: Option<u64>)
    ensures
        res == admin_id_spec(text@),
{
    let stripped = remove_all(text, "/add");
    let trimmed = trim(stripped.as_str());
    match parse_u64(trimmed) {
        Ok(v) => Some(v),
        Err(_) => None,
    }
}

/// The reply to a successful `/add` of `user`.
pub open spec fn added_text(user: u64) -> Seq<char> {
    "Add the user "@ + decimal(user as nat) + " into the admins, aight..."@
}

/// Answers `/add` with the message's text, if it has one: reads the user id
/// and makes every user below it an admin (see `Storage::add_admin`).
pub fn command(db: &mut Storage, text: Option<&str>) -> (res: String)
    ensures
        (match text {
            None => res@ == NO_ID@ && final(db).users@ == old(db).users@,
            Some(t) => match admin_id_spec(t@) {
                None => res@ == INVALID_ID@ && final(db).users@ == old(db).users@,
                Some(u) => if has_admin(old(db).users@, u) {
                    res@ == "User already is in admins list!"@ && final(db).users@ == old(
                        db,
                    ).users@
                } else {
                    res@ == added_text(u) && final(db).users@ == promote_below(old(db).users@, u)
                },
            },
        }),
{
    let t = match text {
        Some(t) => t,
        None => return String::from_str(NO_ID),
    };
    let user = match parse_admin_id(t) {
        Some(u) => u,
        None => return String::from_str(INVALID_ID),
    };
    match db.add_admin(user) {
        Ok(()) => {
            let mut out = String::from_str("Add the user ");
            let digits = crate::text::u64_to_decimal(user);
            out.append(digits.as_str());
            out.append(" into the admins, aight...");
            out
        },
        Err(e) => e.message(),
    }
}

} // verus!

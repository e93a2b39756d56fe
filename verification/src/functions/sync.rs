//! `/sync`: reports the admins after the users table was read again.

use crate::error::Error;
use crate::text::{decimal, u64_to_decimal};
use vstd::prelude::*;
use vstd::string::*;

verus! {

/// The head of the reply to a successful `/sync`.
pub const SUCCESS_HEAD: &'static str = "Alright, successfully updated admins list!\n\n";

/// The reply to a failed `/sync`.
pub const FAILURE: &'static str = "Nope, we fucked up somewhere, check logs for more...";

/// One line per user, "- " and the user id, joined by new lines.
pub open spec fn user_lines(users: Seq<u64>) -> Seq<char>
    decreases users.len(),
{
    if users.len() == 0 {
        seq![]
    } else if users.len() == 1 {
        "- "@ + decimal(users[0] as nat)
    } else {
        user_lines(users.drop_last()) + "\n"@ + "- "@ + decimal(users.last() as nat)
    }
}

/// The admins' ids, one line each ("- " and the id).
pub fn user_list(users: &[u64]) -> (res: String)
    ensures
        res@ == user_lines(users@),
{
    let mut lines = String::new();
    let mut i: usize = 0;
    while i < users.len()
        invariant
            i <= users@.len(),
            lines@ == user_lines(users@.take(i as int)),
        decreases users@.len() - i,
    {
        assert(users@.take(i + 1).drop_last() =~= users@.take(i as int));
        if i > 0 {
            lines.append("\n");
        }
        lines.append("- ");
        let digits = u64_to_decimal(users[i]);
        lines.append(digits.as_str());
        proof {
            if i == 0 {
                assert(lines@ =~= "- "@ + decimal(users@[0] as nat));
            }
        }
        i = i + 1;
    }
    assert(users@.take(i as int) =~= users@);
    lines
}

/// The list of one admin is the line "- " and its id.
pub proof fn law_user_lines_single(x: u64)
    ensures
        user_lines(seq![x]) == "- "@ + decimal(x as nat),
{
}

/// Each further admin adds one line: a new line, "- " and its id, after the
/// lines of those before it, however many there are.
pub proof fn law_user_lines_one_line_per_admin(users: Seq<u64>, x: u64)
    requires
        users.len() > 0,
    ensures
        user_lines(users.push(x)) == user_lines(users) + "\n- "@ + decimal(x as nat),
{
    reveal_strlit("\n- ");
    reveal_strlit("\n");
    reveal_strlit("- ");
    assert(users.push(x).drop_last() =~= users);
    assert(user_lines(users) + "\n"@ + "- "@ + decimal(x as nat) =~= user_lines(users) + "\n- "@
        + decimal(x as nat));
}

/// The reply that lists the admins.
pub fn success(users: &[u64]) -> (res: String)
    ensures
        res@ == SUCCESS_HEAD@ + user_lines(users@),
{
    let lines = user_list(users);
    let mut out = String::from_str(SUCCESS_HEAD);
    out.append(lines.as_str());
    out
}

/// The reply to a failed `/sync`, whatever the failure.
pub fn error(err: Error) -> (res: String)
    ensures
        res@ == FAILURE@,
{
    String::from_str(FAILURE)
}

/// Answers `/sync` with the admins' ids that reading the users table again
/// gave, or with the failure to read it.
pub fn command(outcome: Result<Vec<u64>, Error>) -> (res: String)
    ensures
        (match outcome {
            Ok(v) => res@ == SUCCESS_HEAD@ + user_lines(v@),
            Err(_) => res@ == FAILURE@,
        }),
{
    match outcome {
        Ok(users) => success(users.as_slice()),
        Err(e) => error(e),
    }
}

} // verus!

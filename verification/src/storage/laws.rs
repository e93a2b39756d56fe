//! What the users table's operations keep, stated over the spec functions
//! that their contracts use.

use super::models::User;
use super::{
    admins_of,
    admin_chats_of, admin_ids_of, has_admin, has_user, key, promote_below, registered_row,
    unique_ids,
};
use vstd::prelude::*;

verus! {

/// A user that `add_user` has registered is found by `user_exists` afterwards.
pub proof fn law_registered_user_exists(users: Seq<User>, user: u64, chat: i64, row: User)
    requires
        registered_row(row, user, chat),
    ensures
        has_user(users.push(row), user),
{
    assert(users.push(row)[users.len() as int].id == key(user));
}

/// Registering a user keeps every user that was there.
pub proof fn law_registration_keeps_users(users: Seq<User>, row: User, other: u64)
    requires
        has_user(users, other),
    ensures
        has_user(users.push(row), other),
{
    let i = choose|i: int| 0 <= i < users.len() && #[trigger] users[i].id == key(other);
    assert(users.push(row)[i].id == key(other));
}

/// Registering a user who has no row keeps the user ids unique.
pub proof fn law_registration_keeps_ids_unique(users: Seq<User>, user: u64, chat: i64, row: User)
    requires
        unique_ids(users),
        !has_user(users, user),
        registered_row(row, user, chat),
    ensures
        unique_ids(users.push(row)),
{
    let t = users.push(row);
    assert forall|i: int, j: int|
        0 <= i < t.len() && 0 <= j < t.len() && i != j implies #[trigger] t[i].id
        != #[trigger] t[j].id by {
        if i == users.len() {
            assert(users[j].id != key(user));
        } else if j == users.len() {
            assert(users[i].id != key(user));
        }
    }
}

/// A row stored under a Telegram user id gives that id back when converted
/// (`User::user_id`, `u64::from`): storing ids as signed keys loses nothing.
pub proof fn law_user_id_round_trip(row: User, user: u64)
    requires
        row.id == key(user),
    ensures
        row.id as u64 == user,
{
    lemma_key_roundtrip(row.id, user);
}

/// Every admin is a user.
pub proof fn law_admin_is_user(users: Seq<User>, user: u64)
    requires
        has_admin(users, user),
    ensures
        has_user(users, user),
{
    let i = choose|i: int|
        0 <= i < users.len() && #[trigger] users[i].id == key(user) && users[i].admin;
    assert(users[i].id == key(user));
}

proof fn lemma_key_roundtrip(x: i64, u: u64)
    ensures
        (x as u64 == u) <==> (x == u as i64),
{
    assert((x as u64 == u) <==> (x == u as i64)) by (bit_vector);
}

/// A user is an admin exactly when its id is among the admin ids.
pub proof fn law_admin_ids_are_admins(users: Seq<User>, user: u64)
    ensures
        has_admin(users, user) <==> admin_ids_of(users).contains(user),
    decreases users.len(),
{
    if users.len() > 0 {
        let init = users.drop_last();
        let last = users.last();
        law_admin_ids_are_admins(init, user);
        lemma_key_roundtrip(last.id, user);
        if has_admin(users, user) {
            let i = choose|i: int|
                0 <= i < users.len() && #[trigger] users[i].id == key(user) && users[i].admin;
            if i < init.len() {
                assert(init[i].id == key(user));
                let k = choose|k: int|
                    0 <= k < admin_ids_of(init).len() && admin_ids_of(init)[k] == user;
                if last.admin {
                    assert(admin_ids_of(users)[k] == user);
                }
            } else {
                assert(admin_ids_of(users).last() == user);
            }
        }
        if admin_ids_of(users).contains(user) {
            let k = choose|k: int|
                0 <= k < admin_ids_of(users).len() && admin_ids_of(users)[k] == user;
            if last.admin && k == admin_ids_of(users).len() - 1 {
                assert(users[users.len() - 1].id == key(user));
            } else {
                assert(admin_ids_of(init)[k] == user);
                let i = choose|i: int|
                    0 <= i < init.len() && #[trigger] init[i].id == key(user) && init[i].admin;
                assert(users[i].id == key(user));
            }
        }
    }
}

/// Every chat among the admins' chats is the chat of an admin row.
pub proof fn law_admin_chats_belong_to_admins(users: Seq<User>, k: int)
    requires
        0 <= k < admin_chats_of(users).len(),
    ensures
        exists|i: int|
            0 <= i < users.len() && #[trigger] users[i].admin && users[i].chat == Some(
                admin_chats_of(users)[k],
            ),
    decreases users.len(),
{
    let init = users.drop_last();
    let last = users.last();
    if last.admin && last.chat is Some && k == admin_chats_of(users).len() - 1 {
        assert(users[users.len() - 1].admin);
    } else {
        law_admin_chats_belong_to_admins(init, k);
        let i = choose|i: int|
            0 <= i < init.len() && #[trigger] init[i].admin && init[i].chat == Some(
                admin_chats_of(init)[k],
            );
        assert(users[i].admin);
    }
}

/// Making users admin keeps exactly the users that were there.
pub proof fn law_promotion_keeps_users(users: Seq<User>, user: u64, other: u64)
    ensures
        has_user(promote_below(users, user), other) <==> has_user(users, other),
{
    let t = promote_below(users, user);
    if has_user(users, other) {
        let i = choose|i: int| 0 <= i < users.len() && #[trigger] users[i].id == key(other);
        assert(t[i].id == key(other));
    }
    if has_user(t, other) {
        let i = choose|i: int| 0 <= i < t.len() && #[trigger] t[i].id == key(other);
        assert(users[i].id == key(other));
    }
}

/// Making users admin keeps the user ids unique.
pub proof fn law_promotion_keeps_ids_unique(users: Seq<User>, user: u64)
    requires
        unique_ids(users),
    ensures
        unique_ids(promote_below(users, user)),
{
    let t = promote_below(users, user);
    assert forall|i: int, j: int|
        0 <= i < t.len() && 0 <= j < t.len() && i != j implies #[trigger] t[i].id
        != #[trigger] t[j].id by {
        assert(users[i].id != users[j].id);
    }
}

/// After `add_admin(user)`, every user whose id is below `user`'s is an admin.
pub proof fn law_promotion_makes_lower_users_admin(users: Seq<User>, user: u64, other: u64)
    requires
        has_user(users, other),
        key(other) < key(user),
    ensures
        has_admin(promote_below(users, user), other),
{
    let i = choose|i: int| 0 <= i < users.len() && #[trigger] users[i].id == key(other);
    assert(promote_below(users, user)[i].id == key(other));
}

/// `add_admin(user)` compares ids with "below", so it leaves `user`'s own
/// admin standing as it was.
pub proof fn law_promotion_leaves_user_itself(users: Seq<User>, user: u64)
    ensures
        has_admin(promote_below(users, user), user) == has_admin(users, user),
{
    let t = promote_below(users, user);
    if has_admin(users, user) {
        let i = choose|i: int|
            0 <= i < users.len() && #[trigger] users[i].id == key(user) && users[i].admin;
        assert(t[i].id == key(user) && t[i].admin);
    }
    if has_admin(t, user) {
        let i = choose|i: int| 0 <= i < t.len() && #[trigger] t[i].id == key(user) && t[i].admin;
        assert(users[i].id == key(user) && users[i].admin);
    }
}

/// Making the same users admin a second time changes nothing.
pub proof fn law_promotion_idempotent(users: Seq<User>, user: u64)
    ensures
        promote_below(promote_below(users, user), user) == promote_below(users, user),
{
    assert(promote_below(promote_below(users, user), user) =~= promote_below(users, user));
}

/// `add_admin(user)` touches only the rows whose id is below `user`'s: each
/// of those keeps its id, chat and language and becomes an admin; every
/// other row stays exactly as it was. The table keeps its length and order.
pub proof fn law_promotion_changes_only_lower_rows(users: Seq<User>, user: u64)
    ensures
        promote_below(users, user).len() == users.len(),
        forall|i: int|
            0 <= i < users.len() && users[i].id < key(user) ==> {
                &&& (#[trigger] promote_below(users, user)[i]).id == users[i].id
                &&& promote_below(users, user)[i].chat == users[i].chat
                &&& promote_below(users, user)[i].language == users[i].language
                &&& promote_below(users, user)[i].admin
            },
        forall|i: int|
            0 <= i < users.len() && users[i].id >= key(user) ==> #[trigger] promote_below(
                users,
                user,
            )[i] == users[i],
{
}

/// `add_admin` never takes away an admin: every user who was an admin is one
/// afterwards.
pub proof fn law_promotion_keeps_admins(users: Seq<User>, user: u64, other: u64)
    requires
        has_admin(users, other),
    ensures
        has_admin(promote_below(users, user), other),
{
    let i = choose|i: int|
        0 <= i < users.len() && #[trigger] users[i].id == key(other) && users[i].admin;
    let t = promote_below(users, user);
    assert(t[i].id == key(other) && t[i].admin);
}

/// Every row that `admins` lists is an admin row of the table.
pub proof fn law_admins_are_admin_rows(users: Seq<User>, k: int)
    requires
        0 <= k < admins_of(users).len(),
    ensures
        admins_of(users)[k].admin,
        users.contains(admins_of(users)[k]),
    decreases users.len(),
{
    let init = users.drop_last();
    if users.last().admin && k == admins_of(users).len() - 1 {
        assert(users[users.len() - 1] == users.last());
    } else {
        law_admins_are_admin_rows(init, k);
        let j = choose|j: int| 0 <= j < init.len() && init[j] == admins_of(init)[k];
        assert(users[j] == init[j]);
    }
}

/// Every admin row of the table is listed by `admins`.
pub proof fn law_admin_rows_are_listed(users: Seq<User>, i: int)
    requires
        0 <= i < users.len(),
        users[i].admin,
    ensures
        admins_of(users).contains(users[i]),
    decreases users.len(),
{
    let init = users.drop_last();
    if i == users.len() - 1 {
        assert(admins_of(users)[admins_of(users).len() - 1] == users[i]);
    } else {
        assert(init[i] == users[i]);
        law_admin_rows_are_listed(init, i);
        let k = choose|k: int| 0 <= k < admins_of(init).len() && admins_of(init)[k] == init[i];
        if users.last().admin {
            assert(admins_of(users)[k] == users[i]);
        } else {
            assert(admins_of(users)[k] == users[i]);
        }
    }
}

/// Adding a row that is not an admin changes neither the admins nor their
/// chats.
pub proof fn law_non_admin_row_changes_no_admin_list(users: Seq<User>, row: User)
    requires
        !row.admin,
    ensures
        admins_of(users.push(row)) == admins_of(users),
        admin_chats_of(users.push(row)) == admin_chats_of(users),
        admin_ids_of(users.push(row)) == admin_ids_of(users),
{
    assert(users.push(row).drop_last() =~= users);
}

/// Every admin who has a chat has that chat among the admins' chats.
pub proof fn law_admin_chats_are_complete(users: Seq<User>, i: int)
    requires
        0 <= i < users.len(),
        users[i].admin,
        users[i].chat is Some,
    ensures
        admin_chats_of(users).contains(users[i].chat->0),
    decreases users.len(),
{
    let init = users.drop_last();
    let c = users[i].chat->0;
    if i == users.len() - 1 {
        assert(admin_chats_of(users)[admin_chats_of(users).len() - 1] == c);
    } else {
        assert(init[i] == users[i]);
        law_admin_chats_are_complete(init, i);
        let k = choose|k: int| 0 <= k < admin_chats_of(init).len() && admin_chats_of(init)[k] == c;
        assert(admin_chats_of(users)[k] == c);
    }
}

} // verus!

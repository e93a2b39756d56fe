use informator::error::Error;
use informator::storage::models::{Post, User};
use informator::storage::{defacto, Storage};

fn user(id: i64, chat: Option<i64>, admin: bool) -> User {
    User { id, chat, admin, language: "en".to_string() }
}

fn table(rows: Vec<User>) -> Storage {
    Storage { users: rows }
}

#[test]
fn defacto_lists_the_first_admin() {
    assert_eq!(defacto(), vec![7598454972]);
}

#[test]
fn add_user_registers_a_new_user() {
    let mut db = table(vec![]);
    let row = db.add_user(42, 4200).unwrap();
    assert_eq!(row, user(42, Some(4200), false));
    assert_eq!(db.users, vec![user(42, Some(4200), false)]);
    assert!(db.user_exists(42));
}

#[test]
fn add_user_makes_defacto_users_admin() {
    let mut db = table(vec![]);
    let row = db.add_user(7598454972, 1).unwrap();
    assert!(row.admin);
    assert!(db.is_admin(7598454972));
}

#[test]
fn add_user_refuses_a_returning_user() {
    let mut db = table(vec![]);
    db.add_user(42, 4200).unwrap();
    assert_eq!(db.add_user(42, 9999), Err(Error::ReturningUser));
    assert_eq!(db.users, vec![user(42, Some(4200), false)]);
}

#[test]
fn add_user_keeps_ids_as_signed_keys() {
    let mut db = table(vec![]);
    let row = db.add_user(u64::MAX, 1).unwrap();
    assert_eq!(row.id, -1);
    assert_eq!(row.user_id(), u64::MAX);
    assert!(db.user_exists(u64::MAX));
    assert!(!db.user_exists(1));
}

#[test]
fn user_exists_and_is_admin() {
    let db = table(vec![user(1, Some(10), true), user(2, None, false)]);
    assert!(db.user_exists(1));
    assert!(db.user_exists(2));
    assert!(!db.user_exists(3));
    assert!(db.is_admin(1));
    assert!(!db.is_admin(2));
    assert!(!db.is_admin(3));
}

#[test]
fn admins_in_table_order() {
    let db = table(vec![
        user(5, Some(50), true),
        user(2, None, false),
        user(9, None, true),
        user(1, Some(10), true),
    ]);
    assert_eq!(
        db.admins(),
        vec![user(5, Some(50), true), user(9, None, true), user(1, Some(10), true)]
    );
    assert_eq!(db.admin_ids(), vec![5, 9, 1]);
    assert_eq!(db.admin_chats(), Ok(vec![50, 10]));
}

#[test]
fn empty_table_has_no_admins() {
    let db = table(vec![]);
    assert!(db.admins().is_empty());
    assert!(db.admin_ids().is_empty());
    assert_eq!(db.admin_chats(), Ok(vec![]));
}

#[test]
fn add_admin_promotes_users_below() {
    let mut db = table(vec![user(1, None, false), user(5, None, false), user(3, Some(3), false)]);
    assert_eq!(db.add_admin(4), Ok(()));
    assert_eq!(
        db.users,
        vec![user(1, None, true), user(5, None, false), user(3, Some(3), true)]
    );
    // The named user itself is left as it was.
    assert_eq!(db.add_admin(5), Ok(()));
    assert!(!db.is_admin(5));
}

#[test]
fn add_admin_refuses_an_admin() {
    let mut db = table(vec![user(1, None, true), user(0, None, false)]);
    assert_eq!(
        db.add_admin(1),
        Err(Error::ProxyError("User already is in admins list!".to_string()))
    );
    assert_eq!(db.users, vec![user(1, None, true), user(0, None, false)]);
}

#[test]
fn add_admin_is_idempotent() {
    let mut db = table(vec![user(1, None, false), user(2, None, false), user(9, None, false)]);
    db.add_admin(5).unwrap();
    let once = db.users.clone();
    db.add_admin(5).unwrap();
    assert_eq!(db.users, once);
}

#[test]
fn user_id_reads_the_stored_key() {
    assert_eq!(user(12, None, false).user_id(), 12);
    assert_eq!(user(-1, None, false).user_id(), u64::MAX);
}

#[test]
fn storage_builder_goes_through_its_stages() {
    let storage = table(vec![user(1, None, true)]);
    let built = Storage::new().connect(storage).migrate().unwrap().build().unwrap();
    assert_eq!(built.users, vec![user(1, None, true)]);
}

#[test]
fn post_holds_its_fields() {
    let post = Post { id: 3, chat: -100, selection: "1,2".to_string() };
    assert_eq!(post.id, 3);
    assert_eq!(post.chat, -100);
    assert_eq!(post.selection, "1,2");
}

#[test]
fn ids_stay_unique_and_admins_are_users() {
    let mut db = table(vec![user(4, Some(40), false)]);
    db.add_user(9, 90).unwrap();
    let _ = db.add_user(4, 40);
    db.add_user(1, 10).unwrap();
    db.add_admin(5).unwrap();
    let mut ids: Vec<i64> = db.users.iter().map(|u| u.id).collect();
    ids.sort();
    ids.dedup();
    assert_eq!(ids.len(), db.users.len());
    for id in db.admin_ids() {
        assert!(db.is_admin(id));
        assert!(db.user_exists(id));
    }
    for u in &db.users {
        assert_eq!(db.is_admin(u.user_id()), db.admin_ids().contains(&u.user_id()));
    }
    assert_eq!(db.admin_chats(), Ok(vec![40, 10]));
}

#[test]
fn user_converts_to_its_telegram_id() {
    assert_eq!(u64::from(&user(12, None, false)), 12);
    assert_eq!(u64::from(&user(-1, None, false)), u64::MAX);
    assert_eq!(u64::from(user(-1, None, false)), u64::MAX);
    let mut db = table(vec![]);
    let row = db.add_user(u64::MAX - 5, 1).unwrap();
    assert_eq!(u64::from(&row), u64::MAX - 5);
}

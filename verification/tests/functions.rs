use informator::bot::Command;
use informator::error::Error;
use informator::functions::start::{NOT_A_PERSON, TEXT_F, TEXT_R, TEXT_S};
use informator::functions::sync::{FAILURE, SUCCESS_HEAD};
use informator::functions::{add, start, sync, ANNOUNCEMENT};
use informator::storage::models::User;
use informator::storage::Storage;

fn user(id: i64, admin: bool) -> User {
    User { id, chat: Some(id * 10), admin, language: "en".to_string() }
}

#[test]
fn start_without_sender() {
    let mut db = Storage { users: vec![] };
    assert_eq!(start::command(&mut db, None, 1), NOT_A_PERSON);
    assert!(db.users.is_empty());
}

#[test]
fn start_registers_then_greets_returning() {
    let mut db = Storage { users: vec![] };
    assert_eq!(start::command(&mut db, Some(77), 770), TEXT_S);
    assert!(db.user_exists(77));
    assert_eq!(start::command(&mut db, Some(77), 770), TEXT_R);
    assert_eq!(db.users.len(), 1);
}

#[test]
fn start_reply_for_failures() {
    assert_eq!(start::reply(&Err(Error::DatabaseError("down".to_string()))), TEXT_F);
    assert_eq!(start::reply(&Err(Error::ReturningUser)), TEXT_R);
    assert_eq!(start::reply(&Ok(user(1, false))), TEXT_S);
}

#[test]
fn greeting_texts() {
    assert!(TEXT_S.contains("<b>Welcome to announcer bot!</b>"));
    assert!(TEXT_R.contains("<b>Hello returning user!</b>"));
    assert!(TEXT_F.contains("please try /start command later"));
    assert_eq!(start::KEYBOARD_TEXT, "Maybe read more?");
    assert_eq!(
        start::KEYBOARD_URL,
        "https://github.com/bleur-org/templates/tree/main/rust-telegram"
    );
    assert_eq!(ANNOUNCEMENT, "There's been a post in channel");
}

#[test]
fn add_without_text() {
    let mut db = Storage { users: vec![user(1, false)] };
    assert_eq!(add::command(&mut db, None), add::NO_ID);
    assert_eq!(db.users, vec![user(1, false)]);
}

#[test]
fn add_with_invalid_id() {
    let mut db = Storage { users: vec![user(1, false)] };
    assert_eq!(add::command(&mut db, Some("/add someone")), add::INVALID_ID);
    assert_eq!(add::command(&mut db, Some("/add -5")), add::INVALID_ID);
    assert_eq!(add::command(&mut db, Some("/add")), add::INVALID_ID);
    assert_eq!(db.users, vec![user(1, false)]);
}

#[test]
fn add_with_an_id() {
    let mut db = Storage { users: vec![user(1, false), user(20, false)] };
    assert_eq!(
        add::command(&mut db, Some("/add 10")),
        "Add the user 10 into the admins, aight..."
    );
    assert_eq!(db.users, vec![user(1, true), user(20, false)]);
    assert_eq!(
        add::command(&mut db, Some("/add 2")),
        "Add the user 2 into the admins, aight..."
    );
}

#[test]
fn add_for_an_admin() {
    let mut db = Storage { users: vec![user(3, true)] };
    assert_eq!(add::command(&mut db, Some("/add 3")), "User already is in admins list!");
}

#[test]
fn admin_id_from_text() {
    assert_eq!(add::parse_admin_id(" /add  42 \n"), Some(42));
    assert_eq!(add::parse_admin_id("42/add"), Some(42));
    assert_eq!(add::parse_admin_id("+42"), Some(42));
    assert_eq!(add::parse_admin_id("4 2"), None);
    assert_eq!(add::parse_admin_id(""), None);
}

#[test]
fn sync_success_lists_the_admins() {
    assert_eq!(sync::success(&[]), SUCCESS_HEAD);
    assert_eq!(
        sync::success(&[1, 23]),
        "Alright, successfully updated admins list!\n\n- 1\n- 23"
    );
    assert_eq!(
        sync::command(Ok(vec![7598454972])),
        "Alright, successfully updated admins list!\n\n- 7598454972"
    );
}

#[test]
fn sync_failure() {
    assert_eq!(sync::error(Error::MigrationError), FAILURE);
    assert_eq!(sync::command(Err(Error::WeirdChatId)), "Nope, we fucked up somewhere, check logs for more...");
}

#[test]
fn commands_are_distinct() {
    assert_ne!(Command::Help, Command::Start);
    assert_ne!(Command::Start, Command::Sync);
}

#[test]
fn sync_user_list() {
    assert_eq!(sync::user_list(&[]), "");
    assert_eq!(sync::user_list(&[5]), "- 5");
    assert_eq!(sync::user_list(&[5, 6, 70]), "- 5\n- 6\n- 70");
}

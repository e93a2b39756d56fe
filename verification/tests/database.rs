use informator::database::prelude::{Extractable, Message, User};
use informator::database::{Database, CREATE_MESSAGES, CREATE_USERS, INSERT_USER};
use informator::error::Error;

fn runtime() -> tokio::runtime::Runtime {
    tokio::runtime::Builder::new_current_thread().enable_all().build().unwrap()
}

async fn open() -> turso::Database {
    turso::Builder::new_local(":memory:").build().await.unwrap()
}

async fn first_row(db: &turso::Database, sql: &str) -> turso::Row {
    let conn = db.connect().unwrap();
    let mut rows = conn.query(sql, ()).await.unwrap();
    rows.next().await.unwrap().unwrap()
}

#[test]
fn database_builder_goes_through_its_stages() {
    runtime().block_on(async {
        let instance = open().await;
        let built = Database::new().connect(instance).bootstrap().unwrap().build().unwrap();
        assert!(built.get_admins().is_ok());
    });
}

#[test]
fn statements_lay_out_and_fill_the_tables() {
    runtime().block_on(async {
        let db = open().await;
        let conn = db.connect().unwrap();
        conn.execute(CREATE_USERS, ()).await.unwrap();
        conn.execute(CREATE_MESSAGES, ()).await.unwrap();
        // Creating again does nothing.
        conn.execute(CREATE_USERS, ()).await.unwrap();
        let mut stmt = conn.prepare(INSERT_USER).await.unwrap();
        stmt.execute(Database::user_values(5)).await.unwrap();
        let row = first_row(&db, "SELECT id, admin FROM users").await;
        assert_eq!(User::extract(row).unwrap(), User { id: 5, admin: false });
    });
}

#[test]
fn message_is_read_from_its_row() {
    runtime().block_on(async {
        let db = open().await;
        let conn = db.connect().unwrap();
        conn.execute(CREATE_MESSAGES, ()).await.unwrap();
        conn.execute("INSERT INTO messages (id, chat, selection) VALUES (7, -100, '3,-4,5')", ())
            .await
            .unwrap();
        let row = first_row(&db, "SELECT id, chat, selection FROM messages").await;
        assert_eq!(
            Message::extract(row).unwrap(),
            Message { id: 7, chat: -100, selection: vec![3, -4, 5] }
        );
    });
}

#[test]
fn message_with_a_bad_selection_fails_to_parse() {
    runtime().block_on(async {
        let db = open().await;
        let conn = db.connect().unwrap();
        conn.execute(CREATE_MESSAGES, ()).await.unwrap();
        conn.execute("INSERT INTO messages (id, chat, selection) VALUES (7, 1, '3,x')", ())
            .await
            .unwrap();
        let row = first_row(&db, "SELECT id, chat, selection FROM messages").await;
        assert!(matches!(Message::extract(row), Err(Error::ParseIntError(_))));
    });
}

#[test]
fn message_with_a_missing_column_fails() {
    runtime().block_on(async {
        let db = open().await;
        let conn = db.connect().unwrap();
        conn.execute(CREATE_MESSAGES, ()).await.unwrap();
        conn.execute("INSERT INTO messages (id, chat, selection) VALUES (7, 1, NULL)", ())
            .await
            .unwrap();
        let row = first_row(&db, "SELECT id, chat, selection FROM messages").await;
        assert!(matches!(Message::extract(row), Err(Error::DatabaseError(_))));
    });
}

#[test]
fn user_from_columns() {
    assert_eq!(User::from_columns(Ok(9), Ok(true)), Ok(User { id: 9, admin: true }));
    let failed = User::from_columns(Err(turso::Error::Misuse("no column".to_string())), Ok(true));
    assert_eq!(failed, Err(Error::DatabaseError("no column".to_string())));
    let failed = User::from_columns(Ok(9), Err(turso::Error::Error("bad".to_string())));
    assert_eq!(failed, Err(Error::DatabaseError("bad".to_string())));
}

#[test]
fn message_from_columns() {
    assert_eq!(
        Message::from_columns(Ok(1), Ok(2), Ok("10,20".to_string())),
        Ok(Message { id: 1, chat: 2, selection: vec![10, 20] })
    );
    assert!(matches!(
        Message::from_columns(Ok(1), Ok(2), Ok("".to_string())),
        Err(Error::ParseIntError(_))
    ));
    assert!(matches!(
        Message::from_columns(Ok(1), Err(turso::Error::Misuse("m".to_string())), Ok("1".to_string())),
        Err(Error::DatabaseError(_))
    ));
    assert!(matches!(
        Message::from_columns(Err(turso::Error::Misuse("m".to_string())), Ok(2), Ok("x".to_string())),
        Err(Error::DatabaseError(_))
    ));
}

#[test]
fn user_values_are_the_id_and_not_admin() {
    assert_eq!(Database::user_values(42), [42, 0]);
}

#[test]
fn user_is_read_by_its_columns() {
    runtime().block_on(async {
        let db = open().await;
        let conn = db.connect().unwrap();
        conn.execute(CREATE_USERS, ()).await.unwrap();
        conn.execute("INSERT INTO users (id, admin) VALUES (8, 1)", ()).await.unwrap();
        let row = first_row(&db, "SELECT id, admin FROM users").await;
        assert_eq!(User::extract(row).unwrap(), User { id: 8, admin: true });
    });
}

#[test]
fn user_with_unreadable_columns_fails() {
    runtime().block_on(async {
        let db = open().await;
        let conn = db.connect().unwrap();
        for sql in [
            "SELECT 8, 2",
            "SELECT 8, NULL",
            "SELECT -1, 0",
            "SELECT 'x', 0",
            "SELECT 8",
        ] {
            let mut rows = conn.query(sql, ()).await.unwrap();
            let row = rows.next().await.unwrap().unwrap();
            assert!(matches!(User::extract(row), Err(Error::DatabaseError(_))), "{sql}");
        }
    });
}

async fn message_row(selection: &str) -> turso::Row {
    let db = open().await;
    let conn = db.connect().unwrap();
    let sql = format!("SELECT 5, -100, '{selection}'");
    let mut rows = conn.query(sql.as_str(), ()).await.unwrap();
    rows.next().await.unwrap().unwrap()
}

#[test]
fn message_row_scenario() {
    runtime().block_on(async {
        assert_eq!(
            Message::extract(message_row("1,-2,3").await).unwrap(),
            Message { id: 5, chat: -100, selection: vec![1, -2, 3] }
        );
        assert!(matches!(Message::extract(message_row("").await), Err(Error::ParseIntError(_))));
        assert!(matches!(Message::extract(message_row("1, 2").await), Err(Error::ParseIntError(_))));
        assert!(matches!(Message::extract(message_row("1,x").await), Err(Error::ParseIntError(_))));
        let ids: Vec<i64> = vec![-1001234567890, 0, 7, i64::MAX];
        let joined = ids.iter().map(|n| n.to_string()).collect::<Vec<_>>().join(",");
        assert_eq!(
            Message::extract(message_row(&joined).await).unwrap(),
            Message { id: 5, chat: -100, selection: ids }
        );
    });
}

#[test]
fn message_parse_error_carries_the_piece_error() {
    runtime().block_on(async {
        let expected = "x".parse::<i64>().unwrap_err().to_string();
        assert_eq!(Message::extract(message_row("1,x").await), Err(Error::ParseIntError(expected)));
    });
    let expected = " 2".parse::<i64>().unwrap_err().to_string();
    assert_eq!(
        Message::from_columns(Ok(1), Ok(2), Ok("1, 2".to_string())),
        Err(Error::ParseIntError(expected))
    );
}

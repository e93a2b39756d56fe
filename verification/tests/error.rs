use informator::error::{Error, ErrorStruct};

#[test]
fn error_messages() {
    assert_eq!(Error::NoDatabaseInstance.message(), "Are you SURE that database is initialized?!");
    assert_eq!(Error::NoDatabaseUrl("unset".to_string()).message(), "database url where?! unset");
    assert_eq!(Error::DatabaseError("x".to_string()).message(), "trouble with db connection: x");
    assert_eq!(
        Error::PoolingError("y".to_string()).message(),
        "trouble while creating pool of connections: y"
    );
    assert_eq!(Error::MigrationError.message(), "trouble while migrating migrations.");
    assert_eq!(Error::ParseIntError("z".to_string()).message(), "trouble with parsing number: z");
    assert_eq!(Error::WeirdChatId.message(), "this chat_id seems very weird");
    assert_eq!(Error::InvalidPath.message(), "is this really a valid db path?");
    assert_eq!(Error::ReturningUser.message(), "this user seems to be already in database.");
    assert_eq!(Error::ProxyError("as is".to_string()).message(), "as is");
    assert_eq!(
        Error::Unknown("w".to_string()).message(),
        "baba yaga is bullshitting somewhere: w"
    );
}

#[test]
fn error_struct_keeps_the_text() {
    let e = ErrorStruct::from("environment variable not found".to_string());
    assert_eq!(e.0, Some("environment variable not found".to_string()));
}

//! The library's errors and the texts they are shown with.

use vstd::prelude::*;
use vstd::string::*;

verus! {

/// A failure of one of the bot's operations. Failures that come from an
/// outside library (the database driver, the connection pool, number
/// parsing, the environment) carry that failure's text.
#[derive(Debug, PartialEq, Eq)]
pub enum Error {
    NoDatabaseInstance,
    NoDatabaseUrl(String),
    DatabaseError(String),
    PoolingError(String),
    MigrationError,
    ParseIntError(String),
    WeirdChatId,
    InvalidPath,
    ReturningUser,
    ProxyError(String),
    /// Must be avoided at any cost: it stands for what nothing else explains.
    Unknown(String),
}

/// The text an error is shown with.
pub open spec fn error_text(e: Error) -> Seq<char> {
    match e {
        Error::NoDatabaseInstance => "Are you SURE that database is initialized?!"@,
        Error::NoDatabaseUrl(s) => "database url where?! "@ + s@,
        Error::DatabaseError(s) => "trouble with db connection: "@ + s@,
        Error::PoolingError(s) => "trouble while creating pool of connections: "@ + s@,
        Error::MigrationError => "trouble while migrating migrations."@,
        Error::ParseIntError(s) => "trouble with parsing number: "@ + s@,
        Error::WeirdChatId => "this chat_id seems very weird"@,
        Error::InvalidPath => "is this really a valid db path?"@,
        Error::ReturningUser => "this user seems to be already in database."@,
        Error::ProxyError(s) => s@,
        Error::Unknown(s) => "baba yaga is bullshitting somewhere: "@ + s@,
    }
}

fn prefixed(prefix: &str, detail: &String) -> (res: String)
    ensures
        res@ == prefix@ + detail@,
{
    let mut out = String::from_str(prefix);
    out.append(detail.as_str());
    out
}

impl Error {
    /// The text this error is shown with.
    pub fn message(&self) -> (res: String)
        ensures
            res@ == error_text(*self),
    {
        match self {
            Error::NoDatabaseInstance => String::from_str("Are you SURE that database is initialized?!"),
            Error::NoDatabaseUrl(s) => prefixed("database url where?! ", s),
            Error::DatabaseError(s) => prefixed("trouble with db connection: ", s),
            Error::PoolingError(s) => prefixed("trouble while creating pool of connections: ", s),
            Error::MigrationError => String::from_str("trouble while migrating migrations."),
            Error::ParseIntError(s) => prefixed("trouble with parsing number: ", s),
            Error::WeirdChatId => String::from_str("this chat_id seems very weird"),
            Error::InvalidPath => String::from_str("is this really a valid db path?"),
            Error::ReturningUser => String::from_str("this user seems to be already in database."),
            Error::ProxyError(s) => s.clone(),
            Error::Unknown(s) => prefixed("baba yaga is bullshitting somewhere: ", s),
        }
    }
}

/// An optional error text, as kept from a failed environment lookup.
pub struct ErrorStruct(pub Option<String>);

impl From<String> for ErrorStruct {
    fn from(value: String) -> (res: Self) {
        ErrorStruct(Some(value))
    }
}

impl vstd::std_specs::convert::FromSpecImpl<String> for ErrorStruct {
    open spec fn obeys_from_spec() -> bool {
        true
    }

    open spec fn from_spec(v: String) -> Self {
        ErrorStruct(Some(v))
    }
}

} // verus!

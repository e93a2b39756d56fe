//! Rows read from the turso database, turned into the library's values.

use crate::error::Error;
use crate::text::{
    comma_join, law_number_list_read_back, number_list_error, number_list_spec, parse_number_list,
};
use turso::Error as TursoError;
use turso::Row;
use vstd::prelude::*;

verus! {

/// A row of a query's result (an outside value this library only carries).
#[verifier::external_type_specification]
#[verifier::external_body]
pub struct ExTursoRow(Row);

/// A failure reported by turso.
#[verifier::external_type_specification]
#[verifier::external_body]
pub struct ExTursoError(TursoError);

/// A value that can be read from a `T`.
pub trait Extractable<T>: Sized {
    fn extract(value: T) -> Result<Self, Error>;
}

/// What one column of a row holds, as far as this library reads it: SQL
/// NULL, an integer, a text, or anything else (a real number or a blob).
pub enum Cell {
    Null,
    Integer(i64),
    Text(String),
    Other,
}

/// The columns a row holds, in order.
pub uninterp spec fn row_cells(row: Row) -> Seq<Cell>;

/// The column at `idx`, if the row has one there.
pub open spec fn cell_at(row: Row, idx: usize) -> Option<Cell> {
    if idx < row_cells(row).len() {
        Some(row_cells(row)[idx as int])
    } else {
        None
    }
}

/// The column at `idx` read as a `u64`: an integer that is not negative.
pub open spec fn column_as_u64(row: Row, idx: usize) -> Option<u64> {
    match cell_at(row, idx) {
        Some(Cell::Integer(i)) => if i >= 0 { Some(i as u64) } else { None },
        _ => None,
    }
}

/// The column at `idx` read as a `bool`: the integer 0 or 1.
pub open spec fn column_as_bool(row: Row, idx: usize) -> Option<bool> {
    match cell_at(row, idx) {
        Some(Cell::Integer(i)) => if i == 0 {
            Some(false)
        } else if i == 1 {
            Some(true)
        } else {
            None
        },
        _ => None,
    }
}

/// The column at `idx` read as an `i32`: an integer in range of `i32`.
pub open spec fn column_as_i32(row: Row, idx: usize) -> Option<i32> {
    match cell_at(row, idx) {
        Some(Cell::Integer(i)) => if i32::MIN <= i <= i32::MAX { Some(i as i32) } else { None },
        _ => None,
    }
}

/// The column at `idx` read as an `i64`: an integer.
pub open spec fn column_as_i64(row: Row, idx: usize) -> Option<i64> {
    match cell_at(row, idx) {
        Some(Cell::Integer(i)) => Some(i),
        _ => None,
    }
}

/// The column at `idx` read as text.
pub open spec fn column_as_text(row: Row, idx: usize) -> Option<Seq<char>> {
    match cell_at(row, idx) {
        Some(Cell::Text(s)) => Some(s@),
        _ => None,
    }
}

/// turso's `Row::get::<u64>`. Per turso's source, a column index past the
/// row's end is an error, and otherwise the column converts as
/// `FromValue for u64` does: an integer that fits, and an error for NULL,
/// for other kinds, and for a negative integer. The error itself is not
/// stated.
#[verifier::external_body]
fn column_u64(row: &Row, idx: usize) -> (res: Result<u64, TursoError>)
    ensures
        res is Ok <==> column_as_u64(*row, idx) is Some,
        res is Ok ==> idx < row_cells(*row).len(),
        res matches Ok(v) ==> column_as_u64(*row, idx) == Some(v),
{
    row.get::<u64>(idx)
}

/// turso's `Row::get::<bool>`: per turso's source, the integer 0 is false,
/// 1 is true, and anything else (or a missing column) is an error, which is
/// not stated further.
#[verifier::external_body]
fn column_bool(row: &Row, idx: usize) -> (res: Result<bool, TursoError>)
    ensures
        res is Ok <==> column_as_bool(*row, idx) is Some,
        res is Ok ==> idx < row_cells(*row).len(),
        res matches Ok(v) ==> column_as_bool(*row, idx) == Some(v),
{
    row.get::<bool>(idx)
}

/// turso's `Row::get::<i32>`: per turso's source, an integer that fits in
/// `i32`; anything else (or a missing column) is an error, which is not
/// stated further.
#[verifier::external_body]
fn column_i32(row: &Row, idx: usize) -> (res: Result<i32, TursoError>)
    ensures
        res is Ok <==> column_as_i32(*row, idx) is Some,
        res is Ok ==> idx < row_cells(*row).len(),
        res matches Ok(v) ==> column_as_i32(*row, idx) == Some(v),
{
    row.get::<i32>(idx)
}

/// turso's `Row::get::<i64>`: per turso's source, an integer; anything else
/// (or a missing column) is an error, which is not stated further.
#[verifier::external_body]
fn column_i64(row: &Row, idx: usize) -> (res: Result<i64, TursoError>)
    ensures
        res is Ok <==> column_as_i64(*row, idx) is Some,
        res is Ok ==> idx < row_cells(*row).len(),
        res matches Ok(v) ==> column_as_i64(*row, idx) == Some(v),
{
    row.get::<i64>(idx)
}

/// turso's `Row::get::<String>`: per turso's source, a text column's text;
/// anything else (or a missing column) is an error, which is not stated
/// further.
#[verifier::external_body]
fn column_string(row: &Row, idx: usize) -> (res: Result<String, TursoError>)
    ensures
        res is Ok <==> column_as_text(*row, idx) is Some,
        res is Ok ==> idx < row_cells(*row).len(),
        res matches Ok(v) ==> column_as_text(*row, idx) == Some(v@),
{
    row.get::<String>(idx)
}

/// The display text of a turso error (its `Display` impl); what the text
/// says is not stated.
#[verifier::external_body]
fn turso_error_text(e: TursoError) -> String {
    e.to_string()
}

/// A user as the turso database stores it.
#[derive(Debug, PartialEq, Eq)]
pub struct User {
    pub id: u64,
    pub admin: bool,
}

impl User {
    /// Builds a user from its columns as read: the first column that could
    /// not be read fails the whole with a `DatabaseError`.
    pub fn from_columns(id: Result<u64, TursoError>, admin: Result<bool, TursoError>) -> (res:
        Result<User, Error>)
        ensures
            id is Err ==> res matches Err(Error::DatabaseError(_)),
            id is Ok && admin is Err ==> res matches Err(Error::DatabaseError(_)),
            (match (id, admin) {
                (Ok(i), Ok(a)) => res == Ok::<User, Error>(User { id: i, admin: a }),
                _ => true,
            }),
    {
        let id = match id {
            Ok(v) => v,
            Err(e) => return Err(Error::DatabaseError(turso_error_text(e))),
        };
        let admin = match admin {
            Ok(v) => v,
            Err(e) => return Err(Error::DatabaseError(turso_error_text(e))),
        };
        Ok(User { id, admin })
    }
}

impl Extractable<Row> for User {
    /// Reads the user id from the first column and the admin flag from the
    /// second; any failure to read is a `DatabaseError`.
    fn extract(value: Row) -> (res: Result<Self, Error>)
        ensures
            (match (column_as_u64(value, 0), column_as_bool(value, 1)) {
                (Some(i), Some(a)) => res == Ok::<User, Error>(User { id: i, admin: a }),
                _ => res matches Err(Error::DatabaseError(_)),
            }),
    {
        let id = column_u64(&value, 0);
        let admin = column_bool(&value, 1);
        User::from_columns(id, admin)
    }
}

/// A channel post as the turso database stores it, with the chats it was
/// sent to.
#[derive(Debug, PartialEq, Eq)]
pub struct Message {
    pub id: i32,
    pub chat: i64,
    pub selection: Vec<i64>,
}

impl Message {
    /// Builds a message from its columns as read. The first column that could
    /// not be read fails the whole with a `DatabaseError`; a selection that is
    /// not a comma separated list of `i64` numbers fails it with a
    /// `ParseIntError`.
    pub fn from_columns(
        id: Result<i32, TursoError>,
        chat: Result<i64, TursoError>,
        selection: Result<String, TursoError>,
    ) -> (res: Result<Message, Error>)
        ensures
            id is Err ==> res matches Err(Error::DatabaseError(_)),
            id is Ok && chat is Err ==> res matches Err(Error::DatabaseError(_)),
            id is Ok && chat is Ok && selection is Err ==> res matches Err(
                Error::DatabaseError(_),
            ),
            (match (id, chat, selection) {
                (Ok(i), Ok(c), Ok(s)) => match number_list_spec(s@) {
                    None => res matches Err(Error::ParseIntError(e)) && number_list_error(s@) == Some(e@),
                    Some(ids) => res matches Ok(m) && m.id == i && m.chat == c && m.selection@ == ids,
                },
                _ => true,
            }),
    {
        let id = match id {
            Ok(v) => v,
            Err(e) => return Err(Error::DatabaseError(turso_error_text(e))),
        };
        let chat = match chat {
            Ok(v) => v,
            Err(e) => return Err(Error::DatabaseError(turso_error_text(e))),
        };
        let text = match selection {
            Ok(v) => v,
            Err(e) => return Err(Error::DatabaseError(turso_error_text(e))),
        };
        match parse_number_list(text.as_str()) {
            Ok(selection) => Ok(Message { id, chat, selection }),
            Err(e) => Err(Error::ParseIntError(e)),
        }
    }
}

impl Extractable<Row> for Message {
    /// Reads the message id, the chat and the selection from the first three
    /// columns. A column that cannot be read is a `DatabaseError`; a
    /// selection that is not a comma separated list of `i64` numbers is a
    /// `ParseIntError`.
    fn extract(value: Row) -> (res: Result<Self, Error>)
        ensures
            (match (column_as_i32(value, 0), column_as_i64(value, 1), column_as_text(value, 2)) {
                (Some(i), Some(c), Some(s)) => match number_list_spec(s) {
                    Some(ids) => res matches Ok(m) && m.id == i && m.chat == c && m.selection@
                        == ids,
                    None => res matches Err(Error::ParseIntError(e)) && number_list_error(s) == Some(e@),
                },
                _ => res matches Err(Error::DatabaseError(_)),
            }),
    {
        let id = column_i32(&value, 0);
        let chat = column_i64(&value, 1);
        let selection = column_string(&value, 2);
        Message::from_columns(id, chat, selection)
    }
}

/// A message row whose selection column holds chat ids written in decimal
/// and joined by commas is read back (by `Message::extract`) with exactly
/// those ids, in the same order.
pub proof fn law_message_selection_read_back(row: Row, ids: Seq<i64>)
    requires
        ids.len() > 0,
        column_as_text(row, 2) == Some(comma_join(ids)),
    ensures
        number_list_spec(column_as_text(row, 2)->0) == Some(ids),
{
    law_number_list_read_back(ids);
}

} // verus!

//! Errors that can happen when extracting data from a `SQLite` table.

use vstd::prelude::*;

verus! {

#[verifier::external_type_specification]
#[verifier::external_body]
pub struct ExSqliteError(rusqlite::Error);

#[verifier::external_type_specification]
#[verifier::external_body]
pub struct ExIoError(std::io::Error);

/// The text that `rusqlite::Error`'s `Display` implementation writes for `err`.
/// Nothing is claimed of it: some variants display boxed errors of any type, whose
/// text no function of the error's plain content describes.
#[verifier::external_body]
fn sqlite_error_text(err: &rusqlite::Error) -> String {
    err.to_string()
}

/// The text that `std::io::Error`'s `Display` implementation writes for `err`.
/// Nothing is claimed of it: operating system errors are described by the system.
#[verifier::external_body]
fn io_error_text(err: &std::io::Error) -> String {
    err.to_string()
}

/// The table whose rows could not be read
#[derive(Debug, PartialEq, Eq, Clone, Copy, Structural)]
pub enum Table {
    /// The attachment table
    Attachment,
    /// The chat to handle relationship table
    ChatToHandle,
    /// The chat table
    Chat,
    /// The handle table
    Handle,
    /// The messages table
    Messages,
}

/// Errors that can happen when extracting data from a `SQLite` table
///
/// The row errors hold the description of the `rusqlite` error that caused them.
#[derive(Debug)]
pub enum TableError {
    /// Error when parsing attachment data
    Attachment(String),
    /// Error when parsing chat to handle relationship data
    ChatToHandle(String),
    /// Error when parsing chat data
    Chat(String),
    /// Error when parsing handle data
    Handle(String),
    /// Error when parsing messages data
    Messages(String),
    /// Error when connecting to the database
    CannotConnect(String),
    /// Error when reading from the database file
    CannotRead(std::io::Error),
}

/// `prefix` followed by `detail`.
fn prefixed(prefix: &str, detail: &String) -> (res: String)
    ensures
        res@ == prefix@ + detail@,
        starts_with(res@, prefix@),
{
    let mut s = String::from_str(prefix);
    s.append(detail.as_str());
    assert(s@.subrange(0, prefix@.len() as int) =~= prefix@);
    s
}

/// Whether `s` begins with `prefix`.
pub open spec fn starts_with(s: Seq<char>, prefix: Seq<char>) -> bool {
    prefix.len() <= s.len() && s.subrange(0, prefix.len() as int) == prefix
}

/// Whether `e` is the row error of `table`.
pub open spec fn is_row_error_of(e: TableError, table: Table) -> bool {
    match table {
        Table::Attachment => e is Attachment,
        Table::ChatToHandle => e is ChatToHandle,
        Table::Chat => e is Chat,
        Table::Handle => e is Handle,
        Table::Messages => e is Messages,
    }
}

impl TableError {
    /// The error for a row of `table` that `rusqlite` could not read, holding the
    /// description of `err` that `rusqlite` gives.
    pub fn from_sqlite(table: Table, err: &rusqlite::Error) -> (res: TableError)
        ensures
            is_row_error_of(res, table),
    {
        let why = sqlite_error_text(err);
        match table {
            Table::Attachment => TableError::Attachment(why),
            Table::ChatToHandle => TableError::ChatToHandle(why),
            Table::Chat => TableError::Chat(why),
            Table::Handle => TableError::Handle(why),
            Table::Messages => TableError::Messages(why),
        }
    }

    /// The text that introduces the description of this error, before the
    /// description of the underlying error.
    pub open spec fn spec_prefix(&self) -> Seq<char> {
        match self {
            TableError::Attachment(_) => "Failed to parse attachment row: "@,
            TableError::ChatToHandle(_) => "Failed to parse chat handle row: "@,
            TableError::Chat(_) => "Failed to parse chat row: "@,
            TableError::Handle(_) => "Failed to parse handle row: "@,
            TableError::Messages(_) => "Failed to parse messages row: "@,
            TableError::CannotConnect(_) => Seq::empty(),
            TableError::CannotRead(_) => Seq::empty(),
        }
    }

    /// The message that describes this error: the prefix of its kind followed by
    /// the underlying error's own description; the connection message itself
    /// for [`TableError::CannotConnect`].
    pub fn message(&self) -> (res: String)
        ensures
            starts_with(res@, self.spec_prefix()),
            match self {
                TableError::Attachment(why) => res@ == self.spec_prefix() + why@,
                TableError::ChatToHandle(why) => res@ == self.spec_prefix() + why@,
                TableError::Chat(why) => res@ == self.spec_prefix() + why@,
                TableError::Handle(why) => res@ == self.spec_prefix() + why@,
                TableError::Messages(why) => res@ == self.spec_prefix() + why@,
                TableError::CannotConnect(why) => res@ == why@,
                TableError::CannotRead(_) => true,
            },
    {
        let res = match self {
            TableError::Attachment(why) => prefixed("Failed to parse attachment row: ", why),
            TableError::ChatToHandle(why) => prefixed("Failed to parse chat handle row: ", why),
            TableError::Chat(why) => prefixed("Failed to parse chat row: ", why),
            TableError::Handle(why) => prefixed("Failed to parse handle row: ", why),
            TableError::Messages(why) => prefixed("Failed to parse messages row: ", why),
            TableError::CannotConnect(why) => why.clone(),
            TableError::CannotRead(why) => io_error_text(why),
        };
        assert(res@.subrange(0, 0) =~= Seq::<char>::empty());
        res
    }
}

} // verus!

use imessage_exporter::error::message::MessageError;
use imessage_exporter::error::table::{Table, TableError};

#[test]
fn message_errors_describe_themselves() {
    assert_eq!(MessageError::MissingData.message(), "No attributedBody found!");
    assert_eq!(MessageError::NoText.message(), "Message has no text!");
    assert_eq!(
        MessageError::StreamTypedParseError("bad header".to_string()).message(),
        "Failed to parse attributedBody with legacy parser: bad header"
    );
    assert_eq!(
        MessageError::TypedStreamParseError("eof".to_string()).message(),
        "Failed to parse attributedBody: eof"
    );
    assert_eq!(
        MessageError::PlistParseError(String::new()).message(),
        "Failed to parse plist data: "
    );
}

#[test]
fn invalid_timestamps_are_written_in_decimal() {
    assert_eq!(
        MessageError::InvalidTimestamp(674526582885055488).message(),
        "Timestamp is invalid: 674526582885055488"
    );
    assert_eq!(MessageError::InvalidTimestamp(0).message(), "Timestamp is invalid: 0");
    assert_eq!(MessageError::InvalidTimestamp(-42).message(), "Timestamp is invalid: -42");
    assert_eq!(
        MessageError::InvalidTimestamp(i64::MIN).message(),
        format!("Timestamp is invalid: {}", i64::MIN)
    );
    assert_eq!(
        MessageError::InvalidTimestamp(i64::MAX).message(),
        format!("Timestamp is invalid: {}", i64::MAX)
    );
}

#[test]
fn table_errors_name_the_table() {
    let no_rows = rusqlite::Error::QueryReturnedNoRows;
    assert_eq!(
        TableError::from_sqlite(Table::Chat, &no_rows).message(),
        "Failed to parse chat row: Query returned no rows"
    );
    assert_eq!(
        TableError::from_sqlite(Table::Attachment, &no_rows).message(),
        "Failed to parse attachment row: Query returned no rows"
    );
    assert_eq!(
        TableError::from_sqlite(Table::ChatToHandle, &rusqlite::Error::InvalidQuery).message(),
        format!("Failed to parse chat handle row: {}", rusqlite::Error::InvalidQuery)
    );
    assert_eq!(
        TableError::from_sqlite(Table::Handle, &no_rows).message(),
        "Failed to parse handle row: Query returned no rows"
    );
    assert_eq!(
        TableError::from_sqlite(Table::Messages, &no_rows).message(),
        "Failed to parse messages row: Query returned no rows"
    );
    assert_eq!(
        TableError::Messages("disk image is malformed".to_string()).message(),
        "Failed to parse messages row: disk image is malformed"
    );
}

#[test]
fn row_errors_keep_the_sqlite_description() {
    let err = TableError::from_sqlite(Table::Handle, &rusqlite::Error::QueryReturnedNoRows);
    assert!(matches!(&err, TableError::Handle(why) if why == "Query returned no rows"));
}

#[test]
fn connection_errors_are_their_own_message() {
    assert_eq!(
        TableError::CannotConnect("Unable to read from chat database".to_string()).message(),
        "Unable to read from chat database"
    );
    let io = std::io::Error::new(std::io::ErrorKind::NotFound, "no such file");
    assert_eq!(TableError::CannotRead(io).message(), "no such file");
}

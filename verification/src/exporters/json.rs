//! The JSON exporter: which messages are written, and the JSON text of a message.

use vstd::prelude::*;

verus! {

#[verifier::external_type_specification]
#[verifier::external_body]
pub struct ExJsonValue(serde_json::Value);

#[verifier::external_type_specification]
#[verifier::external_body]
#[verifier::reject_recursive_types(K)]
#[verifier::reject_recursive_types(V)]
pub struct ExJsonMap<K, V>(serde_json::Map<K, V>);

#[verifier::external_type_specification]
#[verifier::external_body]
pub struct ExJsonError(serde_json::Error);

/// The map inside a JSON object.
pub type JsonObject = serde_json::Map<String, serde_json::Value>;

/// A JSON value, as the exporter builds it.
pub enum JsonModel {
    Null,
    Bool(bool),
    String(Seq<char>),
    Array(Seq<JsonModel>),
    Object(Map<Seq<char>, JsonModel>),
}

/// What a `serde_json::Value` holds.
pub uninterp spec fn json_model(v: serde_json::Value) -> JsonModel;

/// What a `serde_json::Map` holds: its keys, each with the value it maps to.
pub uninterp spec fn json_map_model(m: JsonObject) -> Map<
    Seq<char>,
    JsonModel,
>;

/// The entries of an empty JSON object.
pub open spec fn no_entries() -> Map<Seq<char>, JsonModel> {
    Map::empty()
}

/// The text that `serde_json::to_string_pretty` writes for a value holding `v`.
pub uninterp spec fn pretty_json(v: JsonModel) -> Seq<char>;

/// `serde_json::Value::Null`.
#[verifier::external_body]
fn json_null() -> (res: serde_json::Value)
    ensures
        json_model(res) == JsonModel::Null,
{
    serde_json::Value::Null
}

/// `serde_json::Value::Bool`, holding `b`.
#[verifier::external_body]
fn json_bool(b: bool) -> (res: serde_json::Value)
    ensures
        json_model(res) == JsonModel::Bool(b),
{
    serde_json::Value::Bool(b)
}

/// `serde_json::Value::String`, holding `s`.
#[verifier::external_body]
fn json_string(s: String) -> (res: serde_json::Value)
    ensures
        json_model(res) == JsonModel::String(s@),
{
    serde_json::Value::String(s)
}

/// `serde_json::Value::Array`, holding `items` in their order.
#[verifier::external_body]
fn json_array(items: Vec<serde_json::Value>) -> (res: serde_json::Value)
    ensures
        json_model(res) == JsonModel::Array(items@.map_values(|v: serde_json::Value| json_model(v))),
{
    serde_json::Value::Array(items)
}

/// `serde_json::Value::Object`, holding the entries of `m`.
#[verifier::external_body]
fn json_object(m: JsonObject) -> (res: serde_json::Value)
    ensures
        json_model(res) == JsonModel::Object(json_map_model(m)),
{
    serde_json::Value::Object(m)
}

/// `serde_json::Map::new`: an empty map.
#[verifier::external_body]
fn json_map_new() -> (res: JsonObject)
    ensures
        json_map_model(res) == no_entries(),
{
    serde_json::Map::new()
}

/// `serde_json::Map::insert`: `key` maps to `value` afterwards, and every other key
/// to what it mapped to before.
#[verifier::external_body]
fn json_map_insert(
    m: &mut JsonObject,
    key: String,
    value: serde_json::Value,
)
    ensures
        json_map_model(*final(m)) == json_map_model(*old(m)).insert(key@, json_model(value)),
{
    m.insert(key, value);
}

/// `serde_json::to_string_pretty` on a value: the text it writes for `v`. It succeeds on
/// every `Value`: its documentation names as the only failures a `Serialize` impl that
/// fails and a map with keys that are not strings, and neither can occur in a `Value`.
#[verifier::external_body]
fn json_to_string_pretty(v: &serde_json::Value) -> (res: Result<String, serde_json::Error>)
    ensures
        res is Ok,
        res matches Ok(s) ==> s@ == pretty_json(json_model(*v)),
{
    serde_json::to_string_pretty(v)
}

/// An attachment of an exported message
#[derive(Debug, PartialEq, Eq)]
pub struct AttachmentRecord {
    /// The attachment's file name, or the placeholder for a missing one
    pub filename: String,
    /// The attachment's MIME type, as the exporter describes it
    pub mime_type: String,
    /// The attachment's size, in readable units
    pub file_size: String,
}

/// What the JSON export writes about a message
#[derive(Debug, PartialEq, Eq)]
pub struct MessageRecord {
    /// When the message was sent, formatted for the reader
    pub timestamp: String,
    /// Who sent the message
    pub sender: String,
    /// The text of the message, empty when it has none
    pub contents: String,
    /// The message's attachments
    pub attachments: Vec<AttachmentRecord>,
    /// When the message was read, if it was
    pub readtime: Option<String>,
    /// Whether the database owner sent the message
    pub is_from_me: bool,
    /// The message's GUID
    pub guid: String,
}

/// What an attachment without a file name is called in exports
pub const ATTACHMENT_NO_FILENAME: &'static str = "Attachment missing name metadata!";

/// The record of an attachment: its file name, or the placeholder when it has none,
/// its MIME type as the exporter describes it, and its size in readable units.
pub fn attachment_record(filename: Option<&str>, mime_type: String, file_size: String) -> (res:
    AttachmentRecord)
    ensures
        res.filename@ == match filename {
            Some(f) => f@,
            None => ATTACHMENT_NO_FILENAME@,
        },
        res.mime_type@ == mime_type@,
        res.file_size@ == file_size@,
{
    let filename = match filename {
        Some(f) => String::from_str(f),
        None => String::from_str(ATTACHMENT_NO_FILENAME),
    };
    AttachmentRecord { filename, mime_type, file_size }
}

/// The record of a message that the JSON export writes.
///
/// The contents are the message's text, or empty when it has none. The read time is
/// given only when the message was read (`date_read > 0`), and is then `read_time`, the
/// read date as formatted for the reader.
pub fn message_record(
    timestamp: String,
    sender: String,
    text: Option<String>,
    attachments: Vec<AttachmentRecord>,
    date_read: i64,
    read_time: String,
    is_from_me: bool,
    guid: String,
) -> (res: MessageRecord)
    ensures
        res.timestamp@ == timestamp@,
        res.sender@ == sender@,
        res.contents@ == match text {
            Some(t) => t@,
            None => Seq::<char>::empty(),
        },
        res.attachments@ == attachments@,
        res.readtime is Some <==> date_read > 0,
        res.readtime matches Some(t) ==> t@ == read_time@,
        res.is_from_me == is_from_me,
        res.guid@ == guid@,
{
    // Get read time if available
    let readtime = if date_read > 0 {
        Some(read_time)
    } else {
        None
    };
    // Get message contents
    let contents = match text {
        Some(t) => t,
        None => String::new(),
    };
    MessageRecord { timestamp, sender, contents, attachments, readtime, is_from_me, guid }
}

/// The JSON object that describes an attachment.
pub open spec fn attachment_json(a: AttachmentRecord) -> JsonModel {
    JsonModel::Object(
        map![
            "filename"@ => JsonModel::String(a.filename@),
            "mime_type"@ => JsonModel::String(a.mime_type@),
            "file_size"@ => JsonModel::String(a.file_size@),
        ],
    )
}

/// The JSON object that describes a message.
pub open spec fn message_json(m: MessageRecord) -> JsonModel {
    JsonModel::Object(
        map![
            "timestamp"@ => JsonModel::String(m.timestamp@),
            "sender"@ => JsonModel::String(m.sender@),
            "contents"@ => JsonModel::String(m.contents@),
            "attachments"@ => JsonModel::Array(
                m.attachments@.map_values(|a: AttachmentRecord| attachment_json(a)),
            ),
            "readtime"@ => match m.readtime {
                Some(t) => JsonModel::String(t@),
                None => JsonModel::Null,
            },
            "is_from_me"@ => JsonModel::Bool(m.is_from_me),
            "guid"@ => JsonModel::String(m.guid@),
        ],
    )
}

fn insert_str(m: &mut JsonObject, key: &str, value: &String)
    ensures
        json_map_model(*final(m)) == json_map_model(*old(m)).insert(
            key@,
            JsonModel::String(value@),
        ),
{
    json_map_insert(m, String::from_str(key), json_string(value.clone()));
}

fn attachment_value(a: &AttachmentRecord) -> (res: serde_json::Value)
    ensures
        json_model(res) == attachment_json(*a),
{
    let mut m = json_map_new();
    insert_str(&mut m, "filename", &a.filename);
    insert_str(&mut m, "mime_type", &a.mime_type);
    insert_str(&mut m, "file_size", &a.file_size);
    let res = json_object(m);
    assert(json_model(res) =~= attachment_json(*a));
    res
}

/// Serializing a message to JSON failed
#[derive(Debug, PartialEq, Eq)]
pub enum JsonExportError {
    /// `serde_json` could not write the message
    SerializationFailed,
}

/// The pretty-printed JSON object that describes a message: its timestamp, sender,
/// contents, attachments (file name, MIME type and size of each), read time (`null`
/// when it was not read), whether the database owner sent it, and its GUID.
/// Writing it always succeeds.
pub fn format_message(message: &MessageRecord) -> (res: Result<String, JsonExportError>)
    ensures
        res matches Ok(s) && s@ == pretty_json(message_json(*message)),
{
    let mut attachments: Vec<serde_json::Value> = Vec::new();
    let mut i: usize = 0;
    while i < message.attachments.len()
        invariant
            i <= message.attachments@.len(),
            attachments@.len() == i,
            forall|j: int|
                0 <= j < i ==> json_model(#[trigger] attachments@[j]) == attachment_json(
                    message.attachments@[j],
                ),
        decreases message.attachments@.len() - i,
    {
        attachments.push(attachment_value(&message.attachments[i]));
        i = i + 1;
    }
    let mut m = json_map_new();
    insert_str(&mut m, "timestamp", &message.timestamp);
    insert_str(&mut m, "sender", &message.sender);
    insert_str(&mut m, "contents", &message.contents);
    let ghost items = attachments@;
    json_map_insert(&mut m, String::from_str("attachments"), json_array(attachments));
    let readtime = match &message.readtime {
        Some(t) => json_string(t.clone()),
        None => json_null(),
    };
    json_map_insert(&mut m, String::from_str("readtime"), readtime);
    json_map_insert(&mut m, String::from_str("is_from_me"), json_bool(message.is_from_me));
    insert_str(&mut m, "guid", &message.guid);
    let value = json_object(m);
    assert(items.map_values(|v: serde_json::Value| json_model(v)) =~= message.attachments@.map_values(
        |a: AttachmentRecord| attachment_json(a),
    ));
    assert(json_model(value) =~= message_json(*message));
    match json_to_string_pretty(&value) {
        Ok(s) => Ok(s),
        Err(_) => Err(JsonExportError::SerializationFailed),
    }
}

/// What the exporter does with the next message of the stream.
#[derive(Debug, PartialEq, Eq)]
pub struct MessageStep {
    /// The message is not the one just handled, so its text is generated
    pub is_new: bool,
    /// The message is written to its conversation's file
    pub write: bool,
    /// The progress bar moves to this position
    pub progress: Option<u64>,
}

/// Where the export is in the stream of messages.
#[derive(Debug, PartialEq, Eq)]
pub struct ExportCursor {
    /// The row of the last message handled; `-1` before the first one
    pub current_message_row: i64,
    /// How many messages of the stream have been seen
    pub current_message: u64,
}

/// The cursor at the start of a stream.
pub open spec fn start_cursor() -> ExportCursor {
    ExportCursor { current_message_row: -1i64, current_message: 0u64 }
}

/// The cursor after taking the message of row `rowid` (a tapback or not) at `c`,
/// and what is done with that message.
pub open spec fn spec_step(c: ExportCursor, rowid: i64, is_tapback: bool) -> (
    ExportCursor,
    MessageStep,
) {
    let count = (c.current_message + 1) as u64;
    if rowid == c.current_message_row {
        (
            ExportCursor { current_message_row: c.current_message_row, current_message: count },
            MessageStep { is_new: false, write: false, progress: None },
        )
    } else {
        (
            ExportCursor { current_message_row: rowid, current_message: count },
            MessageStep {
                is_new: true,
                write: !is_tapback,
                progress: if count % 99 == 0 {
                    Some(count)
                } else {
                    None
                },
            },
        )
    }
}

/// The cursor after the first `n` messages of `stream` (each a row and whether it is
/// a tapback), taken from the start.
pub open spec fn cursor_after(stream: Seq<(i64, bool)>, n: nat) -> ExportCursor
    decreases n,
{
    if n == 0 {
        start_cursor()
    } else {
        spec_step(cursor_after(stream, (n - 1) as nat), stream[n - 1].0, stream[n - 1].1).0
    }
}

/// What is done with message `i` of `stream` when the stream is taken from the start.
pub open spec fn step_at(stream: Seq<(i64, bool)>, i: nat) -> MessageStep {
    spec_step(cursor_after(stream, i), stream[i as int].0, stream[i as int].1).1
}

/// The positions of the messages written among the first `n` of `stream`, in order.
pub open spec fn written_positions(stream: Seq<(i64, bool)>, n: nat) -> Seq<int>
    decreases n,
{
    if n == 0 {
        Seq::empty()
    } else if step_at(stream, (n - 1) as nat).write {
        written_positions(stream, (n - 1) as nat).push(n - 1)
    } else {
        written_positions(stream, (n - 1) as nat)
    }
}

/// The row of the message before message `i` of `stream`; `-1` for the first.
pub open spec fn previous_row(stream: Seq<(i64, bool)>, i: int) -> i64 {
    if i <= 0 {
        -1i64
    } else {
        stream[i - 1].0
    }
}

/// Whether message `i` of `stream` is one the export writes: its row is not the
/// previous message's row, and it is not a tapback.
pub open spec fn is_exported(stream: Seq<(i64, bool)>, i: int) -> bool {
    stream[i].0 != previous_row(stream, i) && !stream[i].1
}

/// The positions, in order, of the messages among the first `n` of `stream` that
/// the export writes.
pub open spec fn exported_positions(stream: Seq<(i64, bool)>, n: nat) -> Seq<int>
    decreases n,
{
    if n == 0 {
        Seq::empty()
    } else if is_exported(stream, n - 1) {
        exported_positions(stream, (n - 1) as nat).push(n - 1)
    } else {
        exported_positions(stream, (n - 1) as nat)
    }
}

impl ExportCursor {
    /// The cursor at the start of the stream.
    pub fn new() -> (res: ExportCursor)
        ensures
            res == start_cursor(),
            res.current_message_row == -1,
            res.current_message == 0,
    {
        ExportCursor { current_message_row: -1, current_message: 0 }
    }

    /// Take the next message of the stream, given its row and whether it is a tapback.
    ///
    /// A message with the row just handled is only counted (the same message can come
    /// twice in a row). Any other message becomes the one just handled and is written
    /// unless it is a tapback, which is shown with the message it reacts to. The
    /// progress bar moves every 99 messages.
    pub fn step(&mut self, rowid: i64, is_tapback: bool) -> (res: MessageStep)
        requires
            old(self).current_message < u64::MAX,
        ensures
            (*final(self), res) == spec_step(*old(self), rowid, is_tapback),
            final(self).current_message == old(self).current_message + 1,
            rowid == old(self).current_message_row ==> {
                &&& res == MessageStep { is_new: false, write: false, progress: None }
                &&& final(self).current_message_row == old(self).current_message_row
            },
            rowid != old(self).current_message_row ==> {
                &&& res.is_new
                &&& res.write == !is_tapback
                &&& res.progress == if final(self).current_message % 99 == 0 {
                    Some(final(self).current_message)
                } else {
                    None
                }
                &&& final(self).current_message_row == rowid
            },
    {
        // Early escape if we try and render the same message GUID twice
        if rowid == self.current_message_row {
            self.current_message = self.current_message + 1;
            return MessageStep { is_new: false, write: false, progress: None };
        }
        self.current_message_row = rowid;
        self.current_message = self.current_message + 1;
        let progress = if self.current_message % 99 == 0 {
            Some(self.current_message)
        } else {
            None
        };
        // Skip tapbacks as they're handled in context
        MessageStep { is_new: true, write: !is_tapback, progress }
    }
}

} // verus!

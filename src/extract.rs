//! Turning the rows of a message listing into records.
use vstd::prelude::*;
use crate::model::{Message, Schema};

verus! {

/// One row of a message listing, as read from the store, column by column.
#[derive(Debug, Clone, PartialEq, Eq)]
pub struct RawMessageRow {
    pub rowid: Option<i32>,
    pub guid: Option<String>,
    pub date: Option<i64>,
    pub handle_id: Option<i32>,
    pub chat_id: Option<i32>,
    /// The plain-text column, where the store filled it.
    pub text: Option<String>,
    /// The serialized rich-text body, where the store holds one.
    pub attributed_body: Option<Vec<u8>>,
    pub num_attachments: i64,
    /// The recoverable-message chat; always empty under the legacy query.
    pub deleted_from: Option<i32>,
    pub num_replies: i64,
}

/// A required column of a message row.
#[derive(Debug, Clone, Copy, PartialEq, Eq, Structural)]
pub enum RowField {
    Id,
    Guid,
    Timestamp,
    AttachmentCount,
    ReplyCount,
}

/// A row that could not be made into a message: the row's identifier, where it
/// had one, and the column that was missing or out of range.
#[derive(Debug, Clone, Copy, PartialEq, Eq, Structural)]
pub struct ExtractionError {
    pub rowid: Option<i32>,
    pub field: RowField,
}

/// What the body decoder makes of a serialized rich-text body.
pub uninterp spec fn streamtyped_text(payload: Seq<u8>) -> Option<Seq<char>>;

pub open spec fn string_view(s: Option<String>) -> Option<Seq<char>> {
    match s {
        Some(t) => Some(t@),
        None => None,
    }
}

/// Relies on imessage_database::util::streamtyped::parse, which decodes a
/// serialized message body from its bytes alone; its error becomes `None`.
#[verifier::external_body]
fn decode_streamtyped(payload: Vec<u8>) -> (r: Option<String>)
    ensures
        string_view(r) == streamtyped_text(payload@),
{
    imessage_database::util::streamtyped::parse(payload).ok()
}

/// The body of a row: its text column where filled, else the decoded rich-text
/// body, else none.
pub open spec fn decoded_body(row: RawMessageRow) -> Option<Seq<char>> {
    match row.text {
        Some(t) => Some(t@),
        None => match row.attributed_body {
            Some(p) => streamtyped_text(p@),
            None => None,
        },
    }
}

/// Decodes the body of `row`; a body that does not decode is left out.
pub fn decode_body(row: &RawMessageRow) -> (r: Option<String>)
    ensures
        string_view(r) == decoded_body(*row),
{
    match &row.text {
        Some(t) => Some(t.clone()),
        None => match &row.attributed_body {
            Some(p) => {
                let payload = p.clone();
                assert(payload@ == p@);
                decode_streamtyped(payload)
            },
            None => None,
        },
    }
}

pub open spec fn count_fits(n: i64) -> bool {
    0 <= n <= u32::MAX
}

/// The first required column of `row` that is missing or out of range, in the
/// order id, guid, timestamp, attachment count, reply count; the reply count is
/// read only from the full query.
pub open spec fn row_fault(row: RawMessageRow, schema: Schema) -> Option<RowField> {
    if row.rowid is None {
        Some(RowField::Id)
    } else if row.guid is None {
        Some(RowField::Guid)
    } else if row.date is None {
        Some(RowField::Timestamp)
    } else if !count_fits(row.num_attachments) {
        Some(RowField::AttachmentCount)
    } else if schema == Schema::Full && !count_fits(row.num_replies) {
        Some(RowField::ReplyCount)
    } else {
        None
    }
}

/// `m` is the message that `row` gives under `schema`, with `body` as its body:
/// the legacy layout has no recoverable-message chat and no reply count.
pub open spec fn message_of(m: Message, row: RawMessageRow, schema: Schema, body: Option<String>) -> bool {
    &&& Some(m.id) == row.rowid
    &&& Some(m.guid) == row.guid
    &&& Some(m.timestamp) == row.date
    &&& m.handle_id == row.handle_id
    &&& m.chat_id == row.chat_id
    &&& m.body == body
    &&& m.attachment_count as i64 == row.num_attachments
    &&& m.reply_count as i64 == (if schema == Schema::Full { row.num_replies } else { 0 })
    &&& m.deleted_from_chat_id == (if schema == Schema::Full { row.deleted_from } else { None })
}

/// Builds the message of `row` under `schema` with the given body, or names the
/// row and the first column that is missing or out of range.
pub fn normalize_message(row: &RawMessageRow, schema: Schema, body: Option<String>) -> (r: Result<Message, ExtractionError>)
    ensures
        match r {
            Ok(m) => row_fault(*row, schema) is None && message_of(m, *row, schema, body),
            Err(e) => row_fault(*row, schema) == Some(e.field) && e.rowid == row.rowid,
        },
{
    let id = match row.rowid {
        Some(id) => id,
        None => return Err(ExtractionError { rowid: None, field: RowField::Id }),
    };
    let guid = match &row.guid {
        Some(g) => g.clone(),
        None => return Err(ExtractionError { rowid: row.rowid, field: RowField::Guid }),
    };
    let timestamp = match row.date {
        Some(d) => d,
        None => return Err(ExtractionError { rowid: row.rowid, field: RowField::Timestamp }),
    };
    if row.num_attachments < 0 || row.num_attachments > u32::MAX as i64 {
        return Err(ExtractionError { rowid: row.rowid, field: RowField::AttachmentCount });
    }
    let attachment_count = row.num_attachments as u32;
    let (reply_count, deleted_from_chat_id) = match schema {
        Schema::Full => {
            if row.num_replies < 0 || row.num_replies > u32::MAX as i64 {
                return Err(ExtractionError { rowid: row.rowid, field: RowField::ReplyCount });
            }
            (row.num_replies as u32, row.deleted_from)
        },
        Schema::Legacy => (0u32, None),
    };
    Ok(Message {
        id,
        guid,
        timestamp,
        handle_id: row.handle_id,
        chat_id: row.chat_id,
        body,
        attachment_count,
        reply_count,
        deleted_from_chat_id,
    })
}

/// Makes `row` into a message under `schema`, decoding its body; a body that
/// does not decode leaves the message without one.
pub fn extract_message(row: &RawMessageRow, schema: Schema) -> (r: Result<Message, ExtractionError>)
    ensures
        match r {
            Ok(m) => row_fault(*row, schema) is None && message_of(m, *row, schema, m.body)
                && string_view(m.body) == decoded_body(*row),
            Err(e) => row_fault(*row, schema) == Some(e.field) && e.rowid == row.rowid,
        },
{
    let body = decode_body(row);
    normalize_message(row, schema, body)
}

/// A row read with either layout gives a message with the same fields: the
/// legacy one differs only in having no recoverable-message chat and no replies,
/// and a row that the legacy layout refuses is refused by the full one too.
pub proof fn lemma_layouts_agree(
    row: RawMessageRow,
    body: Option<String>,
    full: Message,
    legacy: Message,
)
    requires
        message_of(full, row, Schema::Full, body),
        message_of(legacy, row, Schema::Legacy, body),
    ensures
        legacy == (Message { deleted_from_chat_id: None, reply_count: 0, ..full }),
        row_fault(row, Schema::Legacy) is Some ==> row_fault(row, Schema::Full) is Some,
{
}

} // verus!

//! Choosing the listing query for a selector and the layout of the store.
//!
//! The full query is prepared first; when the store rejects it (an older layout
//! lacks a table or column it names), the legacy query is prepared instead, and
//! when that is rejected too the listing fails.
use vstd::prelude::*;
use crate::model::{Schema, Selector};

verus! {

/// Messages of one chat, on a store that tracks recoverable messages and replies.
pub const FULL_BY_CHAT_SQL: &'static str = "SELECT *, c.chat_id, (SELECT COUNT(*) FROM message_attachment_join a WHERE m.ROWID = a.message_id) AS num_attachments, d.chat_id AS deleted_from, (SELECT COUNT(*) FROM message m2 WHERE m2.thread_originator_guid = m.guid) AS num_replies FROM message AS m LEFT JOIN chat_message_join AS c ON m.ROWID = c.message_id LEFT JOIN chat_recoverable_message_join AS d ON m.ROWID = d.message_id WHERE c.chat_id = ?1 ORDER BY m.date";

/// Messages of one chat, on an older store.
pub const LEGACY_BY_CHAT_SQL: &'static str = "SELECT *, c.chat_id, (SELECT COUNT(*) FROM message_attachment_join a WHERE m.ROWID = a.message_id) AS num_attachments, NULL AS deleted_from, 0 AS num_replies FROM message AS m LEFT JOIN chat_message_join AS c ON m.ROWID = c.message_id WHERE c.chat_id = ?1 ORDER BY m.date";

/// Messages of one participant, on a store that tracks recoverable messages and replies.
pub const FULL_BY_HANDLE_SQL: &'static str = "SELECT *, c.chat_id, (SELECT COUNT(*) FROM message_attachment_join a WHERE m.ROWID = a.message_id) AS num_attachments, d.chat_id AS deleted_from, (SELECT COUNT(*) FROM message m2 WHERE m2.thread_originator_guid = m.guid) AS num_replies FROM message AS m LEFT JOIN chat_message_join AS c ON m.ROWID = c.message_id LEFT JOIN chat_recoverable_message_join AS d ON m.ROWID = d.message_id WHERE m.handle_id = ?1 ORDER BY m.date";

/// Messages of one participant, on an older store.
pub const LEGACY_BY_HANDLE_SQL: &'static str = "SELECT *, c.chat_id, (SELECT COUNT(*) FROM message_attachment_join a WHERE m.ROWID = a.message_id) AS num_attachments, NULL AS deleted_from, 0 AS num_replies FROM message AS m LEFT JOIN chat_message_join AS c ON m.ROWID = c.message_id WHERE m.handle_id = ?1 ORDER BY m.date";


/// The listing query for a layout and a selector.
pub open spec fn listing_sql(schema: Schema, selector: Selector) -> &'static str {
    match (schema, selector) {
        (Schema::Full, Selector::ByChatId(_)) => FULL_BY_CHAT_SQL,
        (Schema::Legacy, Selector::ByChatId(_)) => LEGACY_BY_CHAT_SQL,
        (Schema::Full, Selector::ByHandleId(_)) => FULL_BY_HANDLE_SQL,
        (Schema::Legacy, Selector::ByHandleId(_)) => LEGACY_BY_HANDLE_SQL,
    }
}

/// Returns the text of the listing query for `schema` and the kind of `selector`;
/// the selector's key is bound to its parameter `?1`.
pub fn message_sql(schema: Schema, selector: Selector) -> (r: &'static str)
    ensures
        r == listing_sql(schema, selector),
{
    match (schema, selector) {
        (Schema::Full, Selector::ByChatId(_)) => FULL_BY_CHAT_SQL,
        (Schema::Legacy, Selector::ByChatId(_)) => LEGACY_BY_CHAT_SQL,
        (Schema::Full, Selector::ByHandleId(_)) => FULL_BY_HANDLE_SQL,
        (Schema::Legacy, Selector::ByHandleId(_)) => LEGACY_BY_HANDLE_SQL,
    }
}

/// Why a listing failed before any row was read.
#[derive(Debug, Clone, Copy, PartialEq, Eq, Structural)]
pub enum QueryError {
    /// Neither the full nor the legacy query could be prepared.
    Prepare(Selector),
    /// A prepared query failed while it ran.
    Execute(Selector),
}

/// The next thing to do when listing messages.
#[derive(Debug, Clone, Copy, PartialEq, Eq, Structural)]
pub enum Attempt {
    /// Prepare the query for this layout.
    Prepare(Schema),
    /// The query for this layout was prepared: run it, and read its rows with this layout.
    Run(Schema),
    /// Give up.
    Fail(QueryError),
}

/// Every listing starts by preparing the full query.
pub fn first_attempt() -> (r: Attempt)
    ensures
        r == Attempt::Prepare(Schema::Full),
{
    Attempt::Prepare(Schema::Full)
}

/// What follows the preparation of the query for `schema`, which succeeded when
/// `prepared` holds.
pub open spec fn next_attempt(selector: Selector, schema: Schema, prepared: bool) -> Attempt {
    if prepared {
        Attempt::Run(schema)
    } else {
        match schema {
            Schema::Full => Attempt::Prepare(Schema::Legacy),
            Schema::Legacy => Attempt::Fail(QueryError::Prepare(selector)),
        }
    }
}

/// Decides the step after preparing the query for `schema`.
pub fn after_prepare(selector: Selector, schema: Schema, prepared: bool) -> (r: Attempt)
    ensures
        r == next_attempt(selector, schema, prepared),
{
    if prepared {
        Attempt::Run(schema)
    } else {
        match schema {
            Schema::Full => Attempt::Prepare(Schema::Legacy),
            Schema::Legacy => Attempt::Fail(QueryError::Prepare(selector)),
        }
    }
}

/// Whether the preparation of the full query succeeded, and of the legacy one
/// where it was tried, decide the layout that the rows are read with: the full
/// one when the store took the full query, the legacy one when it took only the
/// legacy query, and a failure naming the selector when it took neither.
pub proof fn lemma_fallback(selector: Selector, full_prepared: bool, legacy_prepared: bool)
    ensures
        full_prepared ==> next_attempt(selector, Schema::Full, full_prepared) == Attempt::Run(
            Schema::Full,
        ),
        !full_prepared ==> next_attempt(selector, Schema::Full, full_prepared)
            == Attempt::Prepare(Schema::Legacy),
        legacy_prepared ==> next_attempt(selector, Schema::Legacy, legacy_prepared)
            == Attempt::Run(Schema::Legacy),
        !legacy_prepared ==> next_attempt(selector, Schema::Legacy, legacy_prepared)
            == Attempt::Fail(QueryError::Prepare(selector)),
{
}

} // verus!

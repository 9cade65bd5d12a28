//! Reading a whole message listing.
use vstd::prelude::*;
use crate::model::{Message, Schema};
use crate::extract::{
    decoded_body, extract_message, message_of, row_fault, string_view, ExtractionError,
    RawMessageRow,
};

verus! {

/// Why a listing's rows could not be made into messages.
#[derive(Debug, Clone, Copy, PartialEq, Eq, Structural)]
pub enum ListError {
    /// A row lacked a required column.
    Extraction(ExtractionError),
    /// The row with this identifier came earlier in time than the row before it.
    OutOfOrder(i32),
}

/// The first `n` rows all make messages under `schema`, and their timestamps
/// never decrease.
pub open spec fn listing_ok(rows: Seq<RawMessageRow>, schema: Schema, n: int) -> bool {
    &&& forall|i: int| 0 <= i < n ==> (#[trigger] row_fault(rows[i], schema)) is None
    &&& forall|i: int|
        1 <= i < n ==> rows[i - 1].date->Some_0 <= (#[trigger] rows[i]).date->Some_0
}

/// Row `k` is where the listing stops, with error `e`.
pub open spec fn fails_at(rows: Seq<RawMessageRow>, schema: Schema, k: int, e: ListError) -> bool {
    match row_fault(rows[k], schema) {
        Some(f) => e == ListError::Extraction(ExtractionError { rowid: rows[k].rowid, field: f }),
        None => k > 0 && rows[k].date->Some_0 < rows[k - 1].date->Some_0 && e
            == ListError::OutOfOrder(rows[k].rowid->Some_0),
    }
}

/// `v` holds the message of each row, in the rows' order.
pub open spec fn messages_of(v: Seq<Message>, rows: Seq<RawMessageRow>, schema: Schema) -> bool {
    &&& v.len() == rows.len()
    &&& forall|i: int|
        0 <= i < v.len() ==> message_of(#[trigger] v[i], rows[i], schema, v[i].body)
            && string_view(v[i].body) == decoded_body(rows[i])
}

/// Makes the rows of a listing, in the order the store gave them, into messages.
/// It stops at the first row that lacks a required column, or whose timestamp is
/// earlier than the one before it.
pub fn collect_messages(rows: &Vec<RawMessageRow>, schema: Schema) -> (r: Result<Vec<Message>, ListError>)
    ensures
        match r {
            Ok(v) => listing_ok(rows@, schema, rows@.len() as int) && messages_of(v@, rows@, schema),
            Err(e) => exists|k: int|
                0 <= k < rows@.len() && listing_ok(rows@, schema, k) && fails_at(rows@, schema, k, e),
        },
{
    let mut out: Vec<Message> = Vec::new();
    let mut i: usize = 0;
    while i < rows.len()
        invariant
            0 <= i <= rows@.len(),
            listing_ok(rows@, schema, i as int),
            messages_of(out@, rows@.take(i as int), schema),
        decreases rows@.len() - i,
    {
        let m = match extract_message(&rows[i], schema) {
            Ok(m) => m,
            Err(e) => {
                assert(fails_at(rows@, schema, i as int, ListError::Extraction(e)));
                return Err(ListError::Extraction(e));
            },
        };
        if i > 0 {
            assert(rows@.take(i as int)[i - 1] == rows@[i - 1]);
            if m.timestamp < out[i - 1].timestamp {
                assert(fails_at(rows@, schema, i as int, ListError::OutOfOrder(m.id)));
                return Err(ListError::OutOfOrder(m.id));
            }
        }
        out.push(m);
        i = i + 1;
        assert forall|j: int| 0 <= j < out@.len() implies message_of(#[trigger] out@[j], rows@.take(i as int)[j], schema, out@[j].body)
            && string_view(out@[j].body) == decoded_body(rows@.take(i as int)[j]) by {
            assert(rows@.take(i as int)[j] == rows@[j]);
            if j < i - 1 {
                assert(rows@.take(i - 1)[j] == rows@[j]);
            }
        }
    }
    assert(rows@.take(rows@.len() as int) =~= rows@);
    Ok(out)
}

proof fn lemma_sorted_pair(v: Seq<Message>, rows: Seq<RawMessageRow>, schema: Schema, i: int, j: int)
    requires
        listing_ok(rows, schema, rows.len() as int),
        messages_of(v, rows, schema),
        0 <= i <= j < v.len(),
    ensures
        v[i].timestamp <= v[j].timestamp,
    decreases j - i,
{
    if i < j {
        lemma_sorted_pair(v, rows, schema, i, j - 1);
        assert(message_of(v[j - 1], rows[j - 1], schema, v[j - 1].body));
        assert(message_of(v[j], rows[j], schema, v[j].body));
    }
}

/// The messages of a listing that succeeds never decrease in timestamp.
pub proof fn lemma_listing_sorted(rows: Seq<RawMessageRow>, schema: Schema, v: Seq<Message>)
    requires
        listing_ok(rows, schema, rows.len() as int),
        messages_of(v, rows, schema),
    ensures
        forall|i: int, j: int| 0 <= i <= j < v.len() ==> v[i].timestamp <= v[j].timestamp,
{
    assert forall|i: int, j: int| 0 <= i <= j < v.len() implies v[i].timestamp <= v[j].timestamp by {
        lemma_sorted_pair(v, rows, schema, i, j);
    }
}

/// Every message of a listing read with the legacy layout has no
/// recoverable-message chat and a reply count of zero.
pub proof fn lemma_legacy_defaults(rows: Seq<RawMessageRow>, v: Seq<Message>)
    requires
        messages_of(v, rows, Schema::Legacy),
    ensures
        forall|i: int|
            0 <= i < v.len() ==> (#[trigger] v[i]).deleted_from_chat_id is None && v[i].reply_count
                == 0,
{
    assert forall|i: int| 0 <= i < v.len() implies (#[trigger] v[i]).deleted_from_chat_id is None
        && v[i].reply_count == 0 by {
        assert(message_of(v[i], rows[i], Schema::Legacy, v[i].body));
    }
}

} // verus!

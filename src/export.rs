//! The delimited-text export of chats.
//!
//! Each record is framed by the `csv` crate, so quoting follows its standard
//! rules; this module decides which records are written, in what order, and
//! what each field holds.
use vstd::prelude::*;
use vstd::utf8::encode_utf8;
use crate::model::Chat;

verus! {

/// What the `csv` writer produces for one record with these fields, or `None`
/// where it reports an error.
pub uninterp spec fn csv_record(fields: Seq<Seq<u8>>) -> Option<Seq<u8>>;

pub open spec fn bytes_view(b: Option<Vec<u8>>) -> Option<Seq<u8>> {
    match b {
        Some(v) => Some(v@),
        None => None,
    }
}

pub open spec fn fields_view(fields: Seq<Vec<u8>>) -> Seq<Seq<u8>> {
    fields.map_values(|f: Vec<u8>| f@)
}

/// Relies on csv::Writer::write_record and csv::Writer::into_inner: a fresh
/// writer with the default settings writes one record, with its terminator,
/// into memory; either error becomes `None`.
#[verifier::external_body]
fn encode_csv_record(fields: &Vec<Vec<u8>>) -> (r: Option<Vec<u8>>)
    ensures
        bytes_view(r) == csv_record(fields_view(fields@)),
{
    let mut writer = csv::Writer::from_writer(Vec::new());
    writer.write_record(fields).ok()?;
    writer.into_inner().ok()
}

/// The decimal digits of `n`, most significant first.
pub open spec fn digits(n: nat) -> Seq<u8>
    decreases n,
{
    if n < 10 {
        seq![(48 + n) as u8]
    } else {
        digits(n / 10).push((48 + n % 10) as u8)
    }
}

/// `n` written in decimal, with a leading `-` when negative.
pub open spec fn decimal(n: int) -> Seq<u8> {
    if n < 0 {
        seq![45u8] + digits((-n) as nat)
    } else {
        digits(n as nat)
    }
}

fn push_digits(n: u32, out: &mut Vec<u8>)
    ensures
        final(out)@ == old(out)@ + digits(n as nat),
    decreases n,
{
    if n >= 10 {
        push_digits(n / 10, out);
    }
    out.push((48 + n % 10) as u8);
}

/// Writes `n` in decimal.
pub fn decimal_bytes(n: i32) -> (r: Vec<u8>)
    ensures
        r@ == decimal(n as int),
{
    let mut out: Vec<u8> = Vec::new();
    let magnitude: u32 = if n < 0 {
        out.push(45u8);
        (-(n as i64)) as u32
    } else {
        n as u32
    };
    push_digits(magnitude, &mut out);
    out
}

/// The UTF-8 bytes of an optional text; an absent one is empty.
pub open spec fn optional_text(s: Option<String>) -> Seq<u8> {
    match s {
        Some(t) => encode_utf8(t@),
        None => Seq::empty(),
    }
}

fn text_bytes(s: &String) -> (r: Vec<u8>)
    ensures
        r@ == encode_utf8(s@),
{
    vstd::slice::slice_to_vec(s.as_str().as_bytes())
}

fn optional_text_bytes(s: &Option<String>) -> (r: Vec<u8>)
    ensures
        r@ == optional_text(*s),
{
    match s {
        Some(t) => text_bytes(t),
        None => Vec::new(),
    }
}

/// The header fields: row id, chat identifier, service name, display name.
pub open spec fn header_fields() -> Seq<Seq<u8>> {
    seq![
        encode_utf8("rowid"@),
        encode_utf8("chat_identifier"@),
        encode_utf8("service_name"@),
        encode_utf8("display_name"@),
    ]
}

/// The fields of a chat's record, in the header's order.
pub open spec fn record_fields(chat: Chat) -> Seq<Seq<u8>> {
    seq![
        decimal(chat.id as int),
        encode_utf8(chat.identifier@),
        optional_text(chat.service_name),
        optional_text(chat.display_name),
    ]
}

/// Returns the header's fields.
pub fn header_record() -> (r: Vec<Vec<u8>>)
    ensures
        fields_view(r@) == header_fields(),
{
    let mut r: Vec<Vec<u8>> = Vec::new();
    r.push(vstd::slice::slice_to_vec("rowid".as_bytes()));
    r.push(vstd::slice::slice_to_vec("chat_identifier".as_bytes()));
    r.push(vstd::slice::slice_to_vec("service_name".as_bytes()));
    r.push(vstd::slice::slice_to_vec("display_name".as_bytes()));
    assert(fields_view(r@) =~= header_fields());
    r
}

/// Returns the fields of `chat`'s record: its id in decimal, its identifier, and
/// its service and display names, each empty when absent.
pub fn chat_fields(chat: &Chat) -> (r: Vec<Vec<u8>>)
    ensures
        fields_view(r@) == record_fields(*chat),
{
    let mut r: Vec<Vec<u8>> = Vec::new();
    r.push(decimal_bytes(chat.id));
    r.push(text_bytes(&chat.identifier));
    r.push(optional_text_bytes(&chat.service_name));
    r.push(optional_text_bytes(&chat.display_name));
    assert(fields_view(r@) =~= record_fields(*chat));
    r
}

/// The whole export of `chats`: the header record, then one record per chat in
/// the order given; `None` where the writer refused a record.
pub open spec fn export_text(chats: Seq<Chat>) -> Option<Seq<u8>>
    decreases chats.len(),
{
    if chats.len() == 0 {
        csv_record(header_fields())
    } else {
        match (export_text(chats.drop_last()), csv_record(record_fields(chats.last()))) {
            (Some(a), Some(b)) => Some(a + b),
            _ => None,
        }
    }
}

/// Why an export failed.
#[derive(Debug, Clone, Copy, PartialEq, Eq, Structural)]
pub enum ExportError {
    /// The writer refused the header (`None`) or the record of the chat with this id.
    Encode(Option<i32>),
    /// The destination could not be written or flushed.
    Write,
}

/// Frames the export of `chats` in memory.
pub fn export_chats_csv(chats: &Vec<Chat>) -> (r: Result<Vec<u8>, ExportError>)
    ensures
        match r {
            Ok(b) => export_text(chats@) == Some(b@),
            Err(e) => export_text(chats@) is None && e is Encode,
        },
{
    let header = header_record();
    let mut out = match encode_csv_record(&header) {
        Some(b) => b,
        None => {
            proof {
                assert(chats@.take(0) =~= Seq::<Chat>::empty());
                lemma_export_fails_on(chats@, 0);
            }
            return Err(ExportError::Encode(None));
        },
    };
    let mut i: usize = 0;
    while i < chats.len()
        invariant
            0 <= i <= chats@.len(),
            export_text(chats@.take(i as int)) == Some(out@),
        decreases chats@.len() - i,
    {
        assert(chats@.take(i + 1).drop_last() =~= chats@.take(i as int));
        let fields = chat_fields(&chats[i]);
        let mut record = match encode_csv_record(&fields) {
            Some(b) => b,
            None => {
                proof { lemma_export_fails_on(chats@, i as int + 1); }
                return Err(ExportError::Encode(Some(chats[i].id)));
            },
        };
        out.append(&mut record);
        i = i + 1;
    }
    assert(chats@.take(chats@.len() as int) =~= chats@);
    Ok(out)
}

proof fn lemma_export_fails_on(chats: Seq<Chat>, n: int)
    requires
        0 <= n <= chats.len(),
        export_text(chats.take(n)) is None,
    ensures
        export_text(chats) is None,
    decreases chats.len() - n,
{
    if n < chats.len() {
        assert(chats.take(n + 1).drop_last() =~= chats.take(n));
        lemma_export_fails_on(chats, n + 1);
    } else {
        assert(chats.take(n) =~= chats);
    }
}

/// Exporting no chats gives the header record alone.
pub proof fn lemma_export_empty(chats: Seq<Chat>)
    requires
        chats.len() == 0,
    ensures
        export_text(chats) == csv_record(header_fields()),
{
}

/// Each chat adds exactly its own record after those of the chats before it:
/// chats are never reordered, dropped or merged.
pub proof fn lemma_export_appends(chats: Seq<Chat>, chat: Chat)
    ensures
        export_text(chats.push(chat)) == match (export_text(chats), csv_record(record_fields(chat))) {
            (Some(a), Some(b)) => Some(a + b),
            _ => None,
        },
{
    assert(chats.push(chat).drop_last() =~= chats);
}

} // verus!

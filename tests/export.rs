use imessage_extract::export::{chat_fields, decimal_bytes, export_chats_csv, header_record};
use imessage_extract::model::Chat;
use imessage_extract::resolve::resolve_chat;

fn chat(id: i32, identifier: &str, service: Option<&str>, display: Option<&str>) -> Chat {
    Chat {
        id,
        identifier: identifier.to_string(),
        service_name: service.map(|s| s.to_string()),
        display_name: display.map(|s| s.to_string()),
    }
}

#[test]
fn export_single_chat() {
    let out = export_chats_csv(&vec![chat(42, "+15551234567", Some("svc"), None)]).unwrap();
    assert_eq!(
        String::from_utf8(out).unwrap(),
        "rowid,chat_identifier,service_name,display_name\n42,+15551234567,svc,\n"
    );
}

#[test]
fn export_no_chats_is_header_only() {
    let out = export_chats_csv(&Vec::new()).unwrap();
    assert_eq!(String::from_utf8(out).unwrap(), "rowid,chat_identifier,service_name,display_name\n");
}

#[test]
fn export_keeps_input_order() {
    let out = export_chats_csv(&vec![chat(9, "b", None, Some("B")), chat(-3, "a", Some("s"), None)]).unwrap();
    assert_eq!(
        String::from_utf8(out).unwrap(),
        "rowid,chat_identifier,service_name,display_name\n9,b,,B\n-3,a,s,\n"
    );
}

#[test]
fn comma_field_round_trips() {
    let chats = vec![chat(1, "+1", Some("svc"), Some("Smith, J.")), chat(2, "say \"hi\"", None, Some("two\nlines"))];
    let out = export_chats_csv(&chats).unwrap();
    let mut reader = csv::Reader::from_reader(out.as_slice());
    let header = reader.headers().unwrap().clone();
    assert_eq!(header.iter().collect::<Vec<_>>(), vec!["rowid", "chat_identifier", "service_name", "display_name"]);
    let records: Vec<csv::StringRecord> = reader.records().map(|r| r.unwrap()).collect();
    assert_eq!(records.len(), 2);
    assert_eq!(records[0].iter().collect::<Vec<_>>(), vec!["1", "+1", "svc", "Smith, J."]);
    assert_eq!(records[1].iter().collect::<Vec<_>>(), vec!["2", "say \"hi\"", "", "two\nlines"]);
}

#[test]
fn comma_field_is_quoted() {
    let out = export_chats_csv(&vec![chat(1, "+1", None, Some("Smith, J."))]).unwrap();
    assert!(String::from_utf8(out).unwrap().ends_with("1,+1,,\"Smith, J.\"\n"));
}

#[test]
fn record_fields_of_chat() {
    let fields = chat_fields(&chat(42, "+15551234567", Some("svc"), None));
    assert_eq!(fields, vec![b"42".to_vec(), b"+15551234567".to_vec(), b"svc".to_vec(), Vec::new()]);
    assert_eq!(
        header_record(),
        vec![b"rowid".to_vec(), b"chat_identifier".to_vec(), b"service_name".to_vec(), b"display_name".to_vec()]
    );
}

#[test]
fn decimal_of_integers() {
    assert_eq!(decimal_bytes(0), b"0".to_vec());
    assert_eq!(decimal_bytes(7), b"7".to_vec());
    assert_eq!(decimal_bytes(1090), b"1090".to_vec());
    assert_eq!(decimal_bytes(-45), b"-45".to_vec());
    assert_eq!(decimal_bytes(i32::MAX), b"2147483647".to_vec());
    assert_eq!(decimal_bytes(i32::MIN), b"-2147483648".to_vec());
}

#[test]
fn resolve_by_identifier_or_display_name() {
    let chats = vec![
        chat(1, "+15550000001", None, Some("Family")),
        chat(2, "+15550000002", None, None),
        chat(3, "chat123", None, Some("+15550000002")),
    ];
    assert_eq!(resolve_chat(&chats, &"+15550000002".to_string()), Some(2));
    assert_eq!(resolve_chat(&chats, &"Family".to_string()), Some(1));
    assert_eq!(resolve_chat(&chats, &"chat123".to_string()), Some(3));
}

#[test]
fn resolve_substring_is_not_found() {
    let chats = vec![chat(1, "+15550000001", None, Some("Family"))];
    assert_eq!(resolve_chat(&chats, &"Fam".to_string()), None);
    assert_eq!(resolve_chat(&chats, &"5550000001".to_string()), None);
    assert_eq!(resolve_chat(&chats, &"family".to_string()), None);
    assert_eq!(resolve_chat(&Vec::new(), &"x".to_string()), None);
}

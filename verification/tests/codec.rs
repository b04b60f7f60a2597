use todo_store::codec::{decode_task, encode_record, Field, FieldValue};
use todo_store::task::TaskRecord;

#[test]
fn encode_then_decode_returns_the_record() {
    let record = TaskRecord {
        id: String::from("9"),
        title: String::from("water plants"),
        completed: true,
    };
    let doc = encode_record(&record);
    assert_eq!(doc.len(), 3);
    let back = decode_task(&doc).unwrap();
    assert_eq!(back.id, "9");
    assert_eq!(back.title, "water plants");
    assert!(back.completed);
}

#[test]
fn decode_reads_the_three_fields() {
    let doc = vec![
        Field { name: String::from("completed"), value: FieldValue::Flag(false) },
        Field { name: String::from("id"), value: FieldValue::Text(String::from("3")) },
        Field { name: String::from("title"), value: FieldValue::Text(String::from("read")) },
    ];
    let t = decode_task(&doc).unwrap();
    assert_eq!(t.id, "3");
    assert_eq!(t.title, "read");
    assert!(!t.completed);
}

#[test]
fn decode_missing_field_is_rejected() {
    let doc = vec![
        Field { name: String::from("id"), value: FieldValue::Text(String::from("3")) },
        Field { name: String::from("title"), value: FieldValue::Text(String::from("read")) },
    ];
    assert!(decode_task(&doc).is_err());
}

#[test]
fn decode_mistyped_field_is_rejected() {
    let doc = vec![
        Field { name: String::from("id"), value: FieldValue::Text(String::from("3")) },
        Field { name: String::from("title"), value: FieldValue::Flag(true) },
        Field { name: String::from("completed"), value: FieldValue::Flag(false) },
    ];
    assert!(decode_task(&doc).is_err());
}

#[test]
fn decode_opaque_value_is_rejected() {
    let doc = vec![
        Field { name: String::from("id"), value: FieldValue::Other },
        Field { name: String::from("title"), value: FieldValue::Text(String::from("read")) },
        Field { name: String::from("completed"), value: FieldValue::Flag(false) },
    ];
    assert!(decode_task(&doc).is_err());
}

#[test]
fn decode_ignores_extra_fields() {
    let doc = vec![
        Field { name: String::from("owner"), value: FieldValue::Text(String::from("me")) },
        Field { name: String::from("id"), value: FieldValue::Text(String::from("5")) },
        Field { name: String::from("title"), value: FieldValue::Text(String::from("call")) },
        Field { name: String::from("completed"), value: FieldValue::Flag(true) },
        Field { name: String::from("weight"), value: FieldValue::Other },
    ];
    let t = decode_task(&doc).unwrap();
    assert_eq!(t.id, "5");
    assert_eq!(t.title, "call");
    assert!(t.completed);
}

#[test]
fn decode_takes_the_first_of_repeated_fields() {
    let doc = vec![
        Field { name: String::from("id"), value: FieldValue::Text(String::from("1")) },
        Field { name: String::from("title"), value: FieldValue::Text(String::from("first")) },
        Field { name: String::from("title"), value: FieldValue::Text(String::from("second")) },
        Field { name: String::from("completed"), value: FieldValue::Flag(false) },
    ];
    let t = decode_task(&doc).unwrap();
    assert_eq!(t.title, "first");
}

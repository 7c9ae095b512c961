use nedb_store::codec::{
    decode, decode_rows, encode, encode_row, holds_object, merge_patch, with_identity, Row,
};
use nedb_store::commands::{
    changed_count, documents_of, fetch_failure, insert_failure, insert_step, patched_payload,
    Step,
};
use nedb_store::error::{ErrorKind, StoreError};
use nedb_store::json::{find_entry, text_member};
use nedb_store::store::{db_file_name, engine_failure, keep_readable};
use serde_json::Value;

fn obj(members: Vec<(&str, Value)>) -> Value {
    let mut map = serde_json::Map::new();
    for (key, value) in members {
        map.insert(key.to_string(), value);
    }
    Value::Object(map)
}

fn txt(s: &str) -> Value {
    Value::String(s.to_string())
}

fn num(n: i64) -> Value {
    Value::from(n)
}

#[test]
fn with_identity_fills_in_what_is_missing() {
    let doc = obj(vec![("name", txt("Alice"))]);
    let stored = with_identity(doc, "id-1".to_string(), "now-1".to_string()).unwrap();
    let expected =
        obj(vec![("_id", txt("id-1")), ("createdAt", txt("now-1")), ("name", txt("Alice"))]);
    assert_eq!(stored, expected);
}

#[test]
fn with_identity_keeps_what_is_given() {
    let doc = obj(vec![("_id", txt("mine")), ("createdAt", txt("then")), ("n", num(1))]);
    let stored = with_identity(doc.clone(), "id-1".to_string(), "now-1".to_string()).unwrap();
    assert_eq!(stored, doc);
    let only_id = obj(vec![("_id", txt("mine"))]);
    let stored = with_identity(only_id, "id-1".to_string(), "now-1".to_string()).unwrap();
    assert_eq!(stored, obj(vec![("_id", txt("mine")), ("createdAt", txt("now-1"))]));
    let only_time = obj(vec![("createdAt", txt("then"))]);
    let stored = with_identity(only_time, "id-1".to_string(), "now-1".to_string()).unwrap();
    assert_eq!(stored, obj(vec![("_id", txt("id-1")), ("createdAt", txt("then"))]));
}

#[test]
fn with_identity_keeps_an_empty_string() {
    let doc = obj(vec![("_id", txt("")), ("createdAt", txt(""))]);
    let stored = with_identity(doc.clone(), "id-1".to_string(), "now-1".to_string()).unwrap();
    assert_eq!(stored, doc);
}

#[test]
fn with_identity_replaces_what_is_no_string() {
    let doc = obj(vec![("_id", num(7)), ("createdAt", Value::Null), ("n", num(1))]);
    let stored = with_identity(doc, "id-1".to_string(), "now-1".to_string()).unwrap();
    let expected = obj(vec![("_id", txt("id-1")), ("createdAt", txt("now-1")), ("n", num(1))]);
    assert_eq!(stored, expected);
}

#[test]
fn with_identity_refuses_what_is_no_object() {
    for doc in [Value::Bool(false), txt("x"), num(1), Value::Array(vec![obj(vec![])])] {
        let e = with_identity(doc, "id-1".to_string(), "now-1".to_string()).unwrap_err();
        assert_eq!(e.kind, ErrorKind::Serialization);
        assert_eq!(e.message, "Document must be an object");
    }
}

#[test]
fn with_identity_takes_null_for_the_object_without_members() {
    let stored = with_identity(Value::Null, "id-1".to_string(), "now-1".to_string()).unwrap();
    assert_eq!(stored, obj(vec![("_id", txt("id-1")), ("createdAt", txt("now-1"))]));
    let same = with_identity(obj(vec![]), "id-1".to_string(), "now-1".to_string()).unwrap();
    assert_eq!(same, stored);
}

#[test]
fn merge_patch_replaces_only_what_the_patch_names() {
    let doc = obj(vec![("_id", txt("X")), ("name", txt("A")), ("age", num(30))]);
    let patch = obj(vec![("age", num(31))]);
    let merged = merge_patch(doc, &patch).unwrap();
    assert_eq!(merged, obj(vec![("_id", txt("X")), ("name", txt("A")), ("age", num(31))]));
}

#[test]
fn merge_patch_adds_members_and_is_shallow() {
    let doc = obj(vec![("a", obj(vec![("x", num(1)), ("y", num(2))])), ("b", num(1))]);
    let patch = obj(vec![("a", obj(vec![("x", num(9))])), ("c", Value::Null), ("b", txt("one"))]);
    let merged = merge_patch(doc, &patch).unwrap();
    let expected =
        obj(vec![("a", obj(vec![("x", num(9))])), ("b", txt("one")), ("c", Value::Null)]);
    assert_eq!(merged, expected);
}

#[test]
fn merge_patch_with_an_empty_patch_changes_nothing() {
    let doc = obj(vec![("_id", txt("X")), ("list", Value::Array(vec![num(1)]))]);
    assert_eq!(merge_patch(doc.clone(), &obj(vec![])).unwrap(), doc);
    let patch = obj(vec![("k", num(1))]);
    assert_eq!(merge_patch(obj(vec![]), &patch).unwrap(), patch);
}

#[test]
fn merge_patch_keeps_the_identifier() {
    let doc = obj(vec![("_id", txt("X")), ("n", num(1))]);
    let merged = merge_patch(doc, &obj(vec![("_id", txt("Z")), ("n", num(2))])).unwrap();
    assert_eq!(merged, obj(vec![("_id", txt("X")), ("n", num(2))]));
    let doc = obj(vec![("_id", txt("X"))]);
    let merged = merge_patch(doc.clone(), &obj(vec![("_id", Value::Null)])).unwrap();
    assert_eq!(merged, doc);
    let bare = obj(vec![("n", num(1))]);
    let merged = merge_patch(bare.clone(), &obj(vec![("_id", txt("Z"))])).unwrap();
    assert_eq!(merged, bare);
    let merged = merge_patch(
        obj(vec![("_id", txt("X")), ("createdAt", txt("then"))]),
        &obj(vec![("createdAt", txt("now")), ("id", txt("Z"))]),
    )
    .unwrap();
    let expected = obj(vec![("_id", txt("X")), ("createdAt", txt("now")), ("id", txt("Z"))]);
    assert_eq!(merged, expected);
}

#[test]
fn merge_patch_refuses_what_is_no_object() {
    let e = merge_patch(obj(vec![]), &num(1)).unwrap_err();
    assert_eq!(e.kind, ErrorKind::QueryShape);
    assert_eq!(e.message, "Update must be an object");
    let e = merge_patch(Value::Array(vec![]), &obj(vec![])).unwrap_err();
    assert_eq!(e.kind, ErrorKind::Serialization);
    assert_eq!(e.message, "Stored document must be an object");
    let e = merge_patch(Value::Null, &Value::Null).unwrap_err();
    assert_eq!(e.kind, ErrorKind::Serialization);
}

#[test]
fn encode_writes_compact_json() {
    let doc = obj(vec![("name", txt("A \"b\"")), ("_id", txt("x")), ("n", num(-3))]);
    assert_eq!(encode(&doc).unwrap(), r#"{"_id":"x","n":-3,"name":"A \"b\""}"#);
    assert_eq!(encode(&Value::Null).unwrap(), "null");
}

#[test]
fn encode_row_holds_the_identity_and_the_whole_document() {
    let doc = obj(vec![("name", txt("A")), ("createdAt", txt("t")), ("_id", txt("x"))]);
    let row = encode_row(&doc).unwrap();
    let expected = Row {
        id: "x".to_string(),
        created_at: "t".to_string(),
        data: r#"{"_id":"x","createdAt":"t","name":"A"}"#.to_string(),
    };
    assert_eq!(row, expected);
}

#[test]
fn encode_row_needs_the_identity() {
    for doc in [
        obj(vec![("createdAt", txt("t"))]),
        obj(vec![("_id", txt("x"))]),
        obj(vec![("_id", num(1)), ("createdAt", txt("t"))]),
        Value::Null,
    ] {
        assert_eq!(encode_row(&doc).unwrap_err().kind, ErrorKind::Serialization);
    }
}

#[test]
fn decode_reads_json_and_refuses_the_rest() {
    assert_eq!(decode(r#"{"a": [1, "b"]}"#).unwrap(), obj(vec![(
        "a",
        Value::Array(vec![num(1), txt("b")])
    )]));
    assert_eq!(decode(" 12 ").unwrap(), num(12));
    for bad in ["", "{", "{\"a\":}", "nul", "{} {}"] {
        assert_eq!(decode(bad).unwrap_err().kind, ErrorKind::Serialization);
    }
}

#[test]
fn encode_then_decode_gives_the_document_back() {
    let doc = obj(vec![
        ("_id", txt("x")),
        ("s", txt("line\nbreak \u{1F600} \u{0}")),
        ("n", num(i64::MIN)),
        ("u", Value::from(u64::MAX)),
        ("l", Value::Array(vec![Value::Bool(false), Value::Null, obj(vec![])])),
    ]);
    assert_eq!(decode(&encode(&doc).unwrap()).unwrap(), doc);
}

#[test]
fn decode_rows_drops_malformed_payloads_and_keeps_the_order() {
    let rows = vec![
        r#"{"n":1}"#.to_string(),
        "oops".to_string(),
        r#"{"n":2}"#.to_string(),
        String::new(),
        "[3]".to_string(),
    ];
    let docs = decode_rows(&rows);
    assert_eq!(docs, vec![obj(vec![("n", num(1))]), obj(vec![("n", num(2))]), Value::Array(vec![
        num(3)
    ])]);
    assert!(decode_rows(&Vec::new()).is_empty());
    assert!(decode_rows(&vec!["x".to_string()]).is_empty());
}

#[test]
fn keep_readable_drops_the_rows_that_failed() {
    let rows = vec![
        Ok("a".to_string()),
        Err(rusqlite::Error::InvalidQuery),
        Ok("b".to_string()),
        Err(rusqlite::Error::QueryReturnedNoRows),
    ];
    assert_eq!(keep_readable(&rows), vec!["a".to_string(), "b".to_string()]);
    assert!(keep_readable(&Vec::new()).is_empty());
}

#[test]
fn documents_of_reads_what_can_be_read() {
    let rows = vec![
        Err(rusqlite::Error::InvalidQuery),
        Ok(r#"{"n":1}"#.to_string()),
        Ok("{".to_string()),
        Ok(r#""text""#.to_string()),
    ];
    assert_eq!(documents_of(&rows), vec![obj(vec![("n", num(1))]), txt("text")]);
}

#[test]
fn patched_payload_merges_into_the_stored_text() {
    let existing = r#"{"_id":"X","age":30,"name":"A"}"#;
    let payload = patched_payload(existing, &obj(vec![("age", num(31))])).unwrap();
    assert_eq!(payload, r#"{"_id":"X","age":31,"name":"A"}"#);
    let payload = patched_payload(existing, &obj(vec![("zip", txt("1"))])).unwrap();
    assert_eq!(payload, r#"{"_id":"X","age":30,"name":"A","zip":"1"}"#);
}

#[test]
fn patched_payload_says_what_went_wrong() {
    let patch = obj(vec![("age", num(31))]);
    assert_eq!(patched_payload("{", &patch).unwrap_err().kind, ErrorKind::Serialization);
    assert_eq!(patched_payload("[1]", &patch).unwrap_err().kind, ErrorKind::Serialization);
    assert_eq!(patched_payload("[1]", &num(1)).unwrap_err().kind, ErrorKind::Serialization);
    let e = patched_payload("{}", &Value::Array(vec![])).unwrap_err();
    assert_eq!(e.kind, ErrorKind::QueryShape);
    assert_eq!(e.message, "Update must be an object");
}

#[test]
fn insert_failure_tells_a_conflict_from_the_rest() {
    let e = insert_failure(true, "UNIQUE constraint failed".to_string());
    assert_eq!(e.kind, ErrorKind::Conflict);
    assert_eq!(e.message, "UNIQUE constraint failed");
    let e = insert_failure(false, "disk full".to_string());
    assert_eq!(e.kind, ErrorKind::Storage);
    assert_eq!(e.to_text(), "disk full");
}

#[test]
fn fetch_failure_tells_a_missing_document_from_the_rest() {
    let e = fetch_failure(true, "Query returned no rows".to_string());
    assert_eq!(e.kind, ErrorKind::NotFound);
    assert_eq!(e.message, "Document not found or database error: Query returned no rows");
    let e = fetch_failure(false, "locked".to_string());
    assert_eq!(e.kind, ErrorKind::Storage);
    assert_eq!(e.message, "Document not found or database error: locked");
}

#[test]
fn store_error_carries_kind_and_message() {
    let e = StoreError::new(ErrorKind::NotFound, "gone".to_string());
    assert_eq!(e.kind, ErrorKind::NotFound);
    assert_eq!(e.to_text(), "gone");
    let e = StoreError::with_text(ErrorKind::StoreOpen, "no file");
    assert_eq!(e.kind, ErrorKind::StoreOpen);
    assert_eq!(e.message, "no file");
}

#[test]
fn db_file_name_appends_the_suffix() {
    assert_eq!(db_file_name("users"), "users.db");
    assert_eq!(db_file_name(""), ".db");
    assert_eq!(db_file_name("a.b"), "a.b.db");
}

#[test]
fn holds_object_tells_objects_from_the_rest() {
    assert!(holds_object(&obj(vec![])));
    assert!(holds_object(&obj(vec![("a", num(1))])));
    for v in [Value::Null, num(1), txt("{}"), Value::Array(vec![]), Value::Bool(false)] {
        assert!(!holds_object(&v));
    }
}

#[test]
fn text_member_reads_top_level_strings_only() {
    let doc = obj(vec![
        ("_id", txt("x")),
        ("n", num(1)),
        ("inner", obj(vec![("deep", txt("y"))])),
        ("empty", txt("")),
    ]);
    assert_eq!(text_member(&doc, "_id"), Some("x".to_string()));
    assert_eq!(text_member(&doc, "empty"), Some(String::new()));
    assert_eq!(text_member(&doc, "n"), None);
    assert_eq!(text_member(&doc, "inner"), None);
    assert_eq!(text_member(&doc, "deep"), None);
    assert_eq!(text_member(&doc, "missing"), None);
    assert_eq!(text_member(&txt("_id"), "_id"), None);
    assert_eq!(text_member(&Value::Array(vec![doc]), "_id"), None);
}

#[test]
fn find_entry_gives_the_index_of_the_name() {
    let entries = vec![
        ("a".to_string(), num(1)),
        ("b".to_string(), num(2)),
        ("c".to_string(), num(3)),
    ];
    assert_eq!(find_entry(&entries, "a"), Some(0));
    assert_eq!(find_entry(&entries, "c"), Some(2));
    assert_eq!(find_entry(&entries, "d"), None);
    assert_eq!(find_entry(&entries, ""), None);
    assert_eq!(find_entry(&Vec::new(), "a"), None);
}

#[test]
fn encode_row_names_what_is_missing() {
    let e = encode_row(&obj(vec![("createdAt", txt("t"))])).unwrap_err();
    assert_eq!(e.kind, ErrorKind::Serialization);
    assert_eq!(e.message, "Document has no identifier");
    let e = encode_row(&obj(vec![("_id", num(1)), ("createdAt", txt("t"))])).unwrap_err();
    assert_eq!(e.message, "Document has no identifier");
    let e = encode_row(&obj(vec![])).unwrap_err();
    assert_eq!(e.message, "Document has no identifier");
    let e = encode_row(&Value::Array(vec![])).unwrap_err();
    assert_eq!(e.message, "Document has no identifier");
    let e = encode_row(&obj(vec![("_id", txt("x"))])).unwrap_err();
    assert_eq!(e.kind, ErrorKind::Serialization);
    assert_eq!(e.message, "Document has no creation time");
    let e = encode_row(&obj(vec![("_id", txt("x")), ("createdAt", Value::Null)])).unwrap_err();
    assert_eq!(e.message, "Document has no creation time");
}

#[test]
fn changed_count_hands_on_what_the_engine_said() {
    assert_eq!(changed_count(Ok(0)).unwrap(), 0);
    assert_eq!(changed_count(Ok(1)).unwrap(), 1);
    assert_eq!(changed_count(Ok(10_000)).unwrap(), 10_000);
    assert_eq!(changed_count(Ok(usize::MAX)).unwrap(), usize::MAX as u64);
    let e = changed_count(Err(rusqlite::Error::InvalidQuery)).unwrap_err();
    assert_eq!(e.kind, ErrorKind::Storage);
    assert_eq!(e.message, rusqlite::Error::InvalidQuery.to_string());
    let e = changed_count(Err(rusqlite::Error::QueryReturnedNoRows)).unwrap_err();
    assert_eq!(e.kind, ErrorKind::Storage);
    assert_eq!(e.message, "Query returned no rows");
}

#[test]
fn engine_failure_keeps_the_kind_and_the_message() {
    let e = engine_failure(ErrorKind::StoreOpen, &rusqlite::Error::InvalidQuery);
    assert_eq!(e.kind, ErrorKind::StoreOpen);
    assert_eq!(e.message, rusqlite::Error::InvalidQuery.to_string());
    let e = engine_failure(ErrorKind::Storage, &rusqlite::Error::QueryReturnedNoRows);
    assert_eq!(e.kind, ErrorKind::Storage);
    assert_eq!(e.message, "Query returned no rows");
}

#[test]
fn patched_payload_keeps_the_stored_identifier() {
    let existing = r#"{"_id":"X","name":"A"}"#;
    let patch = obj(vec![("_id", txt("Y")), ("name", txt("B"))]);
    assert_eq!(patched_payload(existing, &patch).unwrap(), r#"{"_id":"X","name":"B"}"#);
}

#[test]
fn encode_gives_a_text_for_every_value() {
    let deep = Value::Array(vec![Value::Array(vec![obj(vec![("k", Value::Array(vec![]))])])]);
    assert_eq!(encode(&deep).unwrap(), r#"[[{"k":[]}]]"#);
    assert_eq!(encode(&Value::from(1.5)).unwrap(), "1.5");
    assert_eq!(encode(&Value::from(f64::NAN)).unwrap(), "null");
    assert_eq!(encode(&txt("")).unwrap(), "\"\"");
    assert_eq!(encode(&Value::Bool(true)).unwrap(), "true");
    assert_eq!(encode(&obj(vec![("", Value::Null)])).unwrap(), r#"{"":null}"#);
}

#[test]
fn insert_step_goes_on_when_the_row_is_stored() {
    for changed in [0, 1, 7] {
        assert!(matches!(insert_step(Ok(changed)), Step::GoOn));
    }
}

#[test]
fn insert_step_gives_up_when_the_row_is_refused() {
    let taken = rusqlite::Error::SqliteFailure(
        rusqlite::ffi::Error::new(rusqlite::ffi::SQLITE_CONSTRAINT_PRIMARYKEY),
        Some("UNIQUE constraint failed: documents._id".to_string()),
    );
    match insert_step(Err(taken)) {
        Step::GiveUp(e) => {
            assert_eq!(e.kind, ErrorKind::Conflict);
            assert_eq!(e.message, "UNIQUE constraint failed: documents._id");
        },
        Step::GoOn => panic!("a refused row must end the work"),
    }
    let busy = rusqlite::Error::SqliteFailure(
        rusqlite::ffi::Error::new(rusqlite::ffi::SQLITE_BUSY),
        Some("database is locked".to_string()),
    );
    match insert_step(Err(busy)) {
        Step::GiveUp(e) => {
            assert_eq!(e.kind, ErrorKind::Storage);
            assert_eq!(e.message, "database is locked");
        },
        Step::GoOn => panic!("a refused row must end the work"),
    }
    match insert_step(Err(rusqlite::Error::InvalidParameterCount(1, 3))) {
        Step::GiveUp(e) => {
            assert_eq!(e.kind, ErrorKind::Storage);
            assert_eq!(e.message, "Wrong number of parameters passed to query. Got 1, needed 3");
        },
        Step::GoOn => panic!("a refused row must end the work"),
    }
}

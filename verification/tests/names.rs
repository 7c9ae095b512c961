use nedb_store::commands::{nedb_find, nedb_insert};
use nedb_store::error::ErrorKind;
use nedb_store::query::{clause_text, escape_name, translate_filter};
use nedb_store::store::init_db;
use serde_json::Value;

fn doc(members: Vec<(&str, Value)>) -> Value {
    let mut map = serde_json::Map::new();
    for (key, value) in members {
        map.insert(key.to_string(), value);
    }
    Value::Object(map)
}

fn s(text: &str) -> Value {
    Value::String(text.to_string())
}

fn shared(name: &str) -> std::path::PathBuf {
    std::path::PathBuf::from(format!("file:{}?mode=memory&cache=shared", name))
}

#[test]
fn escape_name_doubles_every_quote() {
    assert_eq!(escape_name(""), "");
    assert_eq!(escape_name("name"), "name");
    assert_eq!(escape_name("a.b[0]"), "a.b[0]");
    assert_eq!(escape_name("'"), "''");
    assert_eq!(escape_name("''"), "''''");
    assert_eq!(escape_name("it's"), "it''s");
    assert_eq!(escape_name("'a'b'"), "''a''b''");
    assert_eq!(escape_name("\u{e9}t\u{e9} '\u{4e2d}'"), "\u{e9}t\u{e9} ''\u{4e2d}''");
    assert_eq!(escape_name("\"double\""), "\"double\"");
}

#[test]
fn clause_text_keeps_a_quote_inside_the_path() {
    assert_eq!(clause_text("it's", 2), " AND json_extract(data, '$.it''s') = ?2");
    assert_eq!(
        clause_text("x') OR ('1'='1", 1),
        " AND json_extract(data, '$.x'') OR (''1''=''1') = ?1"
    );
}

#[test]
fn translate_filter_escapes_the_names() {
    let st = translate_filter(&doc(vec![("o'clock", s("five"))])).unwrap();
    assert_eq!(
        st.sql,
        "SELECT data FROM documents WHERE 1=1 AND json_extract(data, '$.o''clock') = ?1"
    );
}

#[test]
fn find_by_a_field_whose_name_holds_a_quote() {
    let path = shared("find_by_a_field_whose_name_holds_a_quote");
    let _keep = init_db(&path).unwrap();
    let quoted = nedb_insert(&path, doc(vec![("it's", s("here"))])).unwrap();
    let _plain = nedb_insert(&path, doc(vec![("its", s("here"))])).unwrap();
    assert_eq!(nedb_find(&path, doc(vec![("it's", s("here"))])).unwrap(), vec![quoted]);
}

#[test]
fn a_crafted_field_name_does_not_widen_the_match() {
    let path = shared("a_crafted_field_name_does_not_widen_the_match");
    let _keep = init_db(&path).unwrap();
    nedb_insert(&path, doc(vec![("name", s("Alice"))])).unwrap();
    nedb_insert(&path, doc(vec![("name", s("Bob"))])).unwrap();
    for crafted in ["x') OR ('1'='1", "x') = ?1 OR 1=1 --", "name') IS NOT NULL OR ('a"] {
        match nedb_find(&path, doc(vec![(crafted, s("nobody"))])) {
            Ok(found) => assert!(found.is_empty()),
            Err(e) => assert_eq!(e.kind, ErrorKind::Storage),
        }
    }
    assert_eq!(nedb_find(&path, doc(vec![])).unwrap().len(), 2);
}

#[test]
fn find_by_a_dotted_name_follows_the_path() {
    let path = shared("find_by_a_dotted_name_follows_the_path");
    let _keep = init_db(&path).unwrap();
    let paris =
        nedb_insert(&path, doc(vec![("address", doc(vec![("city", s("Paris"))]))])).unwrap();
    let _lyon =
        nedb_insert(&path, doc(vec![("address", doc(vec![("city", s("Lyon"))]))])).unwrap();
    assert_eq!(nedb_find(&path, doc(vec![("address.city", s("Paris"))])).unwrap(), vec![paris]);
}

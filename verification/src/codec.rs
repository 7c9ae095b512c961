use vstd::prelude::*;
use crate::error::{ErrorKind, StoreError};
use crate::json::{
    distinct_keys, entries_map, entries_of, entry_views, has_key, holds_null, is_null, is_object,
    json_error_text, json_shape, json_text, json_value, key_index, lemma_entry_in_map,
    member_text, members, parse, set_member, text_member, text_value, to_text, Shape,
};

verus! {

pub open spec fn id_key() -> Seq<char> {
    "_id"@
}

pub open spec fn created_key() -> Seq<char> {
    "createdAt"@
}

/// The two names are not the same name.
pub proof fn lemma_keys_differ()
    ensures
        id_key() != created_key(),
{
    reveal_strlit("_id");
    reveal_strlit("createdAt");
    assert(id_key().len() == 3);
    assert(created_key().len() == 9);
}

/// How long a fresh identifier is: 32 digits and 4 hyphens.
pub open spec fn id_length() -> nat {
    36
}

/// `uuid::Uuid::new_v4`, written as its `Display` writes it, which is the
/// hyphenated form. Each call gives another identifier; of which one, only
/// its length is stated.
#[verifier::external_body]
pub(crate) fn fresh_id() -> (id: String)
    ensures
        id@.len() == id_length(),
{
    uuid::Uuid::new_v4().to_string()
}

/// `chrono::Utc::now`, written by `to_rfc3339`. The text depends on the
/// clock; nothing is stated of it.
#[verifier::external_body]
pub(crate) fn timestamp_now() -> (now: String)
{
    chrono::Utc::now().to_rfc3339()
}

/// `stored` is an object that holds the string `id` under `_id`, the string
/// `created_at` under `createdAt`, and every other member of `doc` as it was,
/// and nothing else.
pub open spec fn is_stamped(
    doc: serde_json::Value,
    stored: serde_json::Value,
    id: Seq<char>,
    created_at: Seq<char>,
) -> bool {
    &&& is_object(stored)
    &&& members(stored).dom() =~= members(doc).dom().insert(id_key()).insert(created_key())
    &&& json_shape(members(stored)[id_key()]) == Shape::Text(id)
    &&& json_shape(members(stored)[created_key()]) == Shape::Text(created_at)
    &&& forall|k: Seq<char>|
        k != id_key() && k != created_key() && #[trigger] members(doc).contains_key(k)
            ==> members(stored)[k] == members(doc)[k]
}

/// The string that `doc` holds under `key`, or else `fallback`.
pub open spec fn chosen(doc: serde_json::Value, key: Seq<char>, fallback: Seq<char>) -> Seq<
    char,
> {
    match member_text(doc, key) {
        Some(t) => t,
        None => fallback,
    }
}

/// Whether a value is an object.
pub fn holds_object(v: &serde_json::Value) -> (r: bool)
    ensures
        r == is_object(*v),
{
    entries_of(v).is_some()
}

/// Whether a value can be stored as a document: an object can, and so can
/// null, which stands for the object without members.
pub open spec fn is_document(v: serde_json::Value) -> bool {
    is_object(v) || is_null(v)
}

/// Fills in the identity of a document that is about to be stored. A string
/// under `_id` or `createdAt` stays as the caller gave it; where there is
/// none, or what stands there is no string, `fresh_id` and `now` take the
/// place. All other members stay. Null is taken for the object without
/// members; every other value that is no object is refused.
pub fn with_identity(doc: serde_json::Value, fresh_id: String, now: String) -> (r: Result<
    serde_json::Value,
    StoreError,
>)
    ensures
        match r {
            Ok(stored) => is_document(doc) && is_stamped(
                doc,
                stored,
                chosen(doc, id_key(), fresh_id@),
                chosen(doc, created_key(), now@),
            ),
            Err(e) => !is_document(doc) && e.kind == ErrorKind::Serialization && e.message@
                == "Document must be an object"@,
        },
{
    if !holds_object(&doc) && !holds_null(&doc) {
        return Err(StoreError::with_text(ErrorKind::Serialization, "Document must be an object"));
    }
    let id = match text_member(&doc, "_id") {
        Some(given) => given,
        None => fresh_id,
    };
    let created_at = match text_member(&doc, "createdAt") {
        Some(given) => given,
        None => now,
    };
    let mut stored = doc;
    set_member(&mut stored, "_id", text_value(id));
    set_member(&mut stored, "createdAt", text_value(created_at));
    proof {
        lemma_keys_differ();
    }
    Ok(stored)
}

/// A document's identity, once it is set, is read back as it was set.
pub proof fn lemma_stamped_identity(
    doc: serde_json::Value,
    stored: serde_json::Value,
    id: Seq<char>,
    created_at: Seq<char>,
)
    requires
        is_stamped(doc, stored, id, created_at),
    ensures
        member_text(stored, id_key()) == Some(id),
        member_text(stored, created_key()) == Some(created_at),
{
    assert(members(stored).dom().contains(id_key()));
    assert(members(stored).dom().contains(created_key()));
}

/// An identifier or a time of creation that the caller gave as a string is
/// stored as given, whatever fresh identifier and time were at hand.
pub proof fn lemma_given_identity_is_kept(
    doc: serde_json::Value,
    stored: serde_json::Value,
    fresh_id: Seq<char>,
    now: Seq<char>,
)
    requires
        is_stamped(doc, stored, chosen(doc, id_key(), fresh_id), chosen(doc, created_key(), now)),
    ensures
        member_text(doc, id_key()) is Some ==> member_text(stored, id_key()) == member_text(
            doc,
            id_key(),
        ),
        member_text(doc, created_key()) is Some ==> member_text(stored, created_key())
            == member_text(doc, created_key()),
        member_text(doc, id_key()) is None ==> member_text(stored, id_key()) == Some(fresh_id),
        member_text(doc, created_key()) is None ==> member_text(stored, created_key()) == Some(
            now,
        ),
{
    lemma_stamped_identity(
        doc,
        stored,
        chosen(doc, id_key(), fresh_id),
        chosen(doc, created_key(), now),
    );
}

/// The members of `doc`, with those of `patch` put over them, but for the
/// patch's `_id`: a document keeps the identifier it has.
pub open spec fn merged(doc: serde_json::Value, patch: serde_json::Value) -> Map<
    Seq<char>,
    serde_json::Value,
> {
    members(doc).union_prefer_right(members(patch).remove(id_key()))
}

proof fn lemma_prefix_map(e: Seq<(Seq<char>, serde_json::Value)>, i: int)
    requires
        distinct_keys(e),
        0 <= i < e.len(),
    ensures
        entries_map(e.take(i + 1)) =~= entries_map(e.take(i)).insert(e[i].0, e[i].1),
{
    let small = e.take(i);
    let big = e.take(i + 1);
    assert(distinct_keys(big));
    assert(distinct_keys(small));
    assert forall|k: Seq<char>| has_key(big, k) <==> (has_key(small, k) || k == e[i].0) by {
        if has_key(big, k) {
            let j = key_index(big, k);
            if j < i {
                assert(small[j].0 == k);
            }
        }
        if has_key(small, k) {
            let j = key_index(small, k);
            assert(big[j].0 == k);
        }
        if k == e[i].0 {
            assert(big[i].0 == k);
        }
    }
    assert forall|k: Seq<char>| has_key(big, k) implies entries_map(big)[k] == entries_map(
        small,
    ).insert(e[i].0, e[i].1)[k] by {
        let j = key_index(big, k);
        lemma_entry_in_map(big, j);
        if j < i {
            assert(small[j].0 == k);
            lemma_entry_in_map(small, j);
        }
    }
}

/// The shallow merge of an update: each top-level member of `patch` replaces
/// the member of `doc` with that name or is added to it, and every member
/// that `patch` does not name stays untouched. Nothing below the top level is
/// merged. An `_id` in the patch is passed over: the identifier of a document
/// does not change once it is assigned. `doc` has to be an object
/// (`Serialization` if not), and so has `patch` (`QueryShape` if not).
pub fn merge_patch(doc: serde_json::Value, patch: &serde_json::Value) -> (r: Result<
    serde_json::Value,
    StoreError,
>)
    ensures
        match r {
            Ok(out) => is_object(doc) && is_object(*patch) && is_object(out) && members(out)
                == merged(doc, *patch),
            Err(e) => if is_object(doc) {
                !is_object(*patch) && e.kind == ErrorKind::QueryShape && e.message@
                    == "Update must be an object"@
            } else {
                e.kind == ErrorKind::Serialization && e.message@
                    == "Stored document must be an object"@
            },
        },
{
    if !holds_object(&doc) {
        return Err(
            StoreError::with_text(ErrorKind::Serialization, "Stored document must be an object"),
        );
    }
    let fields = match entries_of(patch) {
        Some(fields) => fields,
        None => {
            return Err(StoreError::with_text(ErrorKind::QueryShape, "Update must be an object"));
        },
    };
    let ghost e = entry_views(fields@);
    let id_name = String::from_str("_id");
    let mut out = doc;
    let mut i: usize = 0;
    proof {
        assert(entries_map(e.take(0)) =~= Map::empty());
        assert(members(out) =~= members(doc).union_prefer_right(
            entries_map(e.take(0)).remove(id_key()),
        ));
    }
    while i < fields.len()
        invariant
            i <= fields.len(),
            e == entry_views(fields@),
            distinct_keys(e),
            id_name@ == id_key(),
            is_object(out),
            members(out) == members(doc).union_prefer_right(
                entries_map(e.take(i as int)).remove(id_key()),
            ),
        decreases fields.len() - i,
    {
        proof {
            lemma_prefix_map(e, i as int);
        }
        if fields[i].0 != id_name {
            set_member(&mut out, fields[i].0.as_str(), fields[i].1.clone());
        }
        proof {
            assert(members(out) =~= members(doc).union_prefer_right(
                entries_map(e.take(i as int + 1)).remove(id_key()),
            ));
        }
        i = i + 1;
    }
    proof {
        assert(e.take(i as int) =~= e);
    }
    Ok(out)
}

/// What an update leaves under each name but `_id`: the patch's member
/// where the patch has one of that name, else the document's own.
pub proof fn lemma_merged_member(doc: serde_json::Value, patch: serde_json::Value, key: Seq<char>)
    requires
        key != id_key(),
    ensures
        merged(doc, patch).contains_key(key) <==> members(doc).contains_key(key) || members(
            patch,
        ).contains_key(key),
        members(patch).contains_key(key) ==> merged(doc, patch)[key] == members(patch)[key],
        !members(patch).contains_key(key) && members(doc).contains_key(key) ==> merged(
            doc,
            patch,
        )[key] == members(doc)[key],
{
}

/// An update leaves the identifier alone, whatever the patch holds: the
/// updated document has an `_id` exactly where the document had one, and it
/// is the same.
pub proof fn lemma_merged_keeps_identifier(
    doc: serde_json::Value,
    patch: serde_json::Value,
    out: serde_json::Value,
)
    requires
        members(out) == merged(doc, patch),
    ensures
        members(out).contains_key(id_key()) <==> members(doc).contains_key(id_key()),
        members(doc).contains_key(id_key()) ==> members(out)[id_key()] == members(doc)[id_key()],
        member_text(out, id_key()) == member_text(doc, id_key()),
{
}

/// The payload of a document: the text that is stored in the `data` column.
/// Every value has one, so this does not fail.
pub fn encode(doc: &serde_json::Value) -> (r: Result<String, StoreError>)
    ensures
        r matches Ok(s) && s@ == json_text(*doc),
{
    match to_text(doc) {
        Ok(s) => Ok(s),
        Err(e) => Err(StoreError::new(ErrorKind::Serialization, json_error_text(&e))),
    }
}

/// A row of the table of documents: the identifier, the time of creation,
/// and the payload, which is the whole document as text and so holds the
/// other two once more.
#[derive(Clone, Debug, PartialEq, Eq)]
pub struct Row {
    pub id: String,
    pub created_at: String,
    pub data: String,
}

/// What is said of a document that has no string under `_id`, and of one
/// that has none under `createdAt`: the first that is missing is named.
pub open spec fn identity_complaint(stored: serde_json::Value) -> Option<Seq<char>> {
    if member_text(stored, id_key()) is None {
        Some("Document has no identifier"@)
    } else if member_text(stored, created_key()) is None {
        Some("Document has no creation time"@)
    } else {
        None
    }
}

/// The row for a document whose identity is set. A document without a string
/// under `_id` or under `createdAt` has no row: it is refused with the
/// complaint that names what is missing. Every other document has one.
pub fn encode_row(stored: &serde_json::Value) -> (r: Result<Row, StoreError>)
    ensures
        match r {
            Ok(row) => {
                &&& identity_complaint(*stored) is None
                &&& member_text(*stored, id_key()) == Some(row.id@)
                &&& member_text(*stored, created_key()) == Some(row.created_at@)
                &&& row.data@ == json_text(*stored)
            },
            Err(e) => {
                &&& e.kind == ErrorKind::Serialization
                &&& identity_complaint(*stored) == Some(e.message@)
            },
        },
{
    let id = match text_member(stored, "_id") {
        Some(id) => id,
        None => {
            return Err(
                StoreError::with_text(ErrorKind::Serialization, "Document has no identifier"),
            );
        },
    };
    let created_at = match text_member(stored, "createdAt") {
        Some(created_at) => created_at,
        None => {
            return Err(
                StoreError::with_text(ErrorKind::Serialization, "Document has no creation time"),
            );
        },
    };
    match encode(stored) {
        Ok(data) => Ok(Row { id, created_at, data }),
        Err(e) => Err(e),
    }
}

/// A stored payload, read back. A payload that is no JSON is a
/// `Serialization` failure.
pub fn decode(payload: &str) -> (r: Result<serde_json::Value, StoreError>)
    ensures
        match r {
            Ok(v) => json_value(payload@) == Some(v),
            Err(e) => json_value(payload@) is None && e.kind == ErrorKind::Serialization,
        },
{
    match parse(payload) {
        Ok(v) => Ok(v),
        Err(e) => Err(StoreError::new(ErrorKind::Serialization, json_error_text(&e))),
    }
}

pub open spec fn text_views(rows: Seq<String>) -> Seq<Seq<char>> {
    Seq::new(rows.len(), |i: int| rows[i]@)
}

/// The documents in a list of payloads, in the payloads' order, without
/// the payloads that are no JSON.
pub open spec fn decoded(payloads: Seq<Seq<char>>) -> Seq<serde_json::Value>
    decreases payloads.len(),
{
    if payloads.len() == 0 {
        Seq::empty()
    } else {
        match json_value(payloads.last()) {
            Some(v) => decoded(payloads.drop_last()).push(v),
            None => decoded(payloads.drop_last()),
        }
    }
}

/// Reads the payloads of a result set back into documents. A malformed
/// payload is dropped from the result; it does not fail the whole read.
pub fn decode_rows(rows: &Vec<String>) -> (docs: Vec<serde_json::Value>)
    ensures
        docs@ == decoded(text_views(rows@)),
{
    let ghost payloads = text_views(rows@);
    let mut docs: Vec<serde_json::Value> = Vec::new();
    let mut i: usize = 0;
    proof {
        assert(payloads.take(0) =~= Seq::empty());
    }
    while i < rows.len()
        invariant
            i <= rows.len(),
            payloads == text_views(rows@),
            docs@ == decoded(payloads.take(i as int)),
        decreases rows.len() - i,
    {
        proof {
            assert(payloads.take(i as int + 1).drop_last() =~= payloads.take(i as int));
            assert(payloads.take(i as int + 1).last() == rows[i as int]@);
        }
        match parse(rows[i].as_str()) {
            Ok(v) => {
                docs.push(v);
            },
            Err(_) => {},
        }
        i = i + 1;
    }
    proof {
        assert(payloads.take(i as int) =~= payloads);
    }
    docs
}

} // verus!

use vstd::prelude::*;
use crate::codec::{
    chosen, created_key, decode, decode_rows, decoded, encode, encode_row, fresh_id, id_key,
    id_length, identity_complaint, is_document, is_stamped, lemma_given_identity_is_kept,
    lemma_stamped_identity, merge_patch, merged, timestamp_now, with_identity,
};
use crate::error::{ErrorKind, StoreError};
use crate::json::{is_object, json_text, json_value, member_text, members};
use crate::query::{
    clear_statement, delete_statement, insert_statement, select_by_id_statement, target_id,
    translate_filter, update_statement,
};
use crate::store::{
    begin, breaks_constraint, commit, connection_of, engine_failure, found_no_row, init_db,
    keep_readable, readable, run, select, select_one, sqlite_error_text, sqlite_failure,
};

verus! {

/// The documents that a result set holds: the rows that could be read, and
/// of those the ones whose payload is JSON.
pub fn documents_of(rows: &Vec<Result<String, rusqlite::Error>>) -> (docs: Vec<serde_json::Value>)
    ensures
        docs@ == decoded(readable(rows@)),
{
    let kept = keep_readable(rows);
    decode_rows(&kept)
}

/// What the caller is told when the engine refuses to store a row: a
/// `Conflict` where the row would break the table's one constraint, that no
/// two rows share an `_id`, and a `Storage` failure otherwise.
pub fn insert_failure(breaks_constraint: bool, message: String) -> (e: StoreError)
    ensures
        e.kind == (if breaks_constraint {
            ErrorKind::Conflict
        } else {
            ErrorKind::Storage
        }),
        e.message@ == message@,
{
    if breaks_constraint {
        StoreError::new(ErrorKind::Conflict, message)
    } else {
        StoreError::new(ErrorKind::Storage, message)
    }
}

/// What follows on the engine's answer to the insert of one row.
#[derive(Debug)]
pub enum Step {
    /// The row is stored: the work goes on, a batch with its next document.
    GoOn,
    /// The row was refused: the work is given up with this failure, and a
    /// batch is given up as a whole.
    GiveUp(StoreError),
}

/// Decides on the engine's answer to the insert of one row. Any count of
/// changed rows lets the work go on. A refusal ends it: as a `Conflict`
/// where the row would break the table's constraint, as a `Storage` failure
/// otherwise, in both cases with the engine's message.
pub fn insert_step(answer: Result<usize, rusqlite::Error>) -> (step: Step)
    ensures
        match answer {
            Ok(_) => step is GoOn,
            Err(refused) => {
                &&& step matches Step::GiveUp(e)
                &&& e.kind == (if sqlite_failure(refused).breaks_constraint {
                    ErrorKind::Conflict
                } else {
                    ErrorKind::Storage
                })
                &&& e.message@ == sqlite_failure(refused).message
            },
        },
{
    match answer {
        Ok(_) => Step::GoOn,
        Err(refused) => Step::GiveUp(
            insert_failure(breaks_constraint(&refused), sqlite_error_text(&refused)),
        ),
    }
}

/// What the caller is told after a statement that changes rows: how many
/// rows the engine says it changed, or a `Storage` failure, with the
/// engine's message, where the engine refused the statement.
pub fn changed_count(outcome: Result<usize, rusqlite::Error>) -> (r: Result<u64, StoreError>)
    ensures
        match outcome {
            Ok(changed) => (r matches Ok(count) && count == changed),
            Err(refused) => {
                &&& r matches Err(e)
                &&& e.kind == ErrorKind::Storage
                &&& e.message@ == sqlite_failure(refused).message
            },
        },
{
    match outcome {
        Ok(changed) => Ok(changed as u64),
        Err(e) => Err(engine_failure(ErrorKind::Storage, &e)),
    }
}

pub open spec fn fetch_complaint() -> Seq<char> {
    "Document not found or database error: "@
}

/// What the caller is told when the document of an update cannot be
/// fetched: `NotFound` where the engine found no row, and a `Storage`
/// failure otherwise.
pub fn fetch_failure(found_no_row: bool, message: String) -> (e: StoreError)
    ensures
        e.kind == (if found_no_row {
            ErrorKind::NotFound
        } else {
            ErrorKind::Storage
        }),
        e.message@ == fetch_complaint() + message@,
        fetch_complaint().is_prefix_of(e.message@),
{
    let mut text = String::from_str("Document not found or database error: ");
    text.append(message.as_str());
    proof {
        assert(text@.subrange(0, fetch_complaint().len() as int) =~= fetch_complaint());
    }
    if found_no_row {
        StoreError::new(ErrorKind::NotFound, text)
    } else {
        StoreError::new(ErrorKind::Storage, text)
    }
}

/// `stored` is what an insert makes of `doc` when `id` and `now` are the
/// identifier and the time that were at hand.
pub open spec fn stored_from(
    doc: serde_json::Value,
    stored: serde_json::Value,
    id: Seq<char>,
    now: Seq<char>,
) -> bool {
    is_stamped(doc, stored, chosen(doc, id_key(), id), chosen(doc, created_key(), now))
}

/// `stored` is what an insert makes of the document `doc`, whatever fresh
/// identifier and time were at hand.
pub open spec fn is_stored(doc: serde_json::Value, stored: serde_json::Value) -> bool {
    is_document(doc) && exists|id: Seq<char>, now: Seq<char>|
        id.len() == id_length() && #[trigger] stored_from(doc, stored, id, now)
}

/// A document that came without an identifier is stored with one, and that
/// one is not empty: it has the length of a fresh identifier. One that came
/// with an identifier keeps it.
pub proof fn lemma_stored_identifier(doc: serde_json::Value, stored: serde_json::Value)
    requires
        is_stored(doc, stored),
    ensures
        member_text(stored, id_key()) is Some,
        member_text(stored, created_key()) is Some,
        member_text(doc, id_key()) is Some ==> member_text(stored, id_key()) == member_text(
            doc,
            id_key(),
        ),
        member_text(doc, created_key()) is Some ==> member_text(stored, created_key())
            == member_text(doc, created_key()),
        member_text(doc, id_key()) is None ==> member_text(stored, id_key())->Some_0.len()
            == id_length(),
        identity_complaint(stored) is None,
{
    let (id, now) = choose|id: Seq<char>, now: Seq<char>|
        id.len() == id_length() && #[trigger] stored_from(doc, stored, id, now);
    lemma_given_identity_is_kept(doc, stored, id, now);
    lemma_stamped_identity(
        doc,
        stored,
        chosen(doc, id_key(), id),
        chosen(doc, created_key(), now),
    );
}

/// `payload` is the text of `old` with the members of `patch` put over it,
/// the identifier left as it was.
pub open spec fn is_patched(
    old: serde_json::Value,
    patch: serde_json::Value,
    out: serde_json::Value,
    payload: Seq<char>,
) -> bool {
    &&& is_object(out)
    &&& members(out) == merged(old, patch)
    &&& payload == json_text(out)
}

/// Whether an update can be written back: the stored payload is a JSON
/// object, and so is the patch.
pub open spec fn can_patch(existing: Seq<char>, patch: serde_json::Value) -> bool {
    json_value(existing) matches Some(old) && is_object(old) && is_object(patch)
}

/// The payload that an update writes back: the stored payload is read, the
/// patch is merged into it at the top level, and the result is written out
/// again. A stored payload that is no JSON object is a `Serialization`
/// failure; a patch that is no object is a `QueryShape` failure; there is no
/// other failure.
pub fn patched_payload(existing: &str, patch: &serde_json::Value) -> (r: Result<
    String,
    StoreError,
>)
    ensures
        r is Ok <==> can_patch(existing@, *patch),
        r matches Ok(payload) ==> exists|out: serde_json::Value| #[trigger]
            is_patched(json_value(existing@)->Some_0, *patch, out, payload@),
        r matches Err(e) ==> match json_value(existing@) {
            None => e.kind == ErrorKind::Serialization,
            Some(old) => if !is_object(old) {
                e.kind == ErrorKind::Serialization && e.message@
                    == "Stored document must be an object"@
            } else {
                e.kind == ErrorKind::QueryShape && e.message@ == "Update must be an object"@
            },
        },
{
    let old = match decode(existing) {
        Ok(old) => old,
        Err(e) => {
            return Err(e);
        },
    };
    let ghost old_value = old;
    let out = match merge_patch(old, patch) {
        Ok(out) => out,
        Err(e) => {
            return Err(e);
        },
    };
    let written = encode(&out);
    proof {
        assert(is_patched(old_value, *patch, out, written->Ok_0@));
    }
    written
}

/// Finds the documents of a collection that match a filter.
///
/// The filter has to be an object: one that is none is refused as
/// `QueryShape`, unless the store did not even open. What comes back are the
/// payloads that the engine selects for the translated filter, read back
/// into documents, in the engine's order; payloads that cannot be read are
/// left out.
pub fn nedb_find(db_path: &std::path::PathBuf, query: serde_json::Value) -> (r: Result<
    Vec<serde_json::Value>,
    StoreError,
>)
    ensures
        match r {
            Ok(docs) => is_object(query) && exists|payloads: Seq<Seq<char>>|
                docs@ == #[trigger] decoded(payloads),
            Err(e) => match e.kind {
                ErrorKind::StoreOpen => true,
                ErrorKind::QueryShape => !is_object(query) && e.message@
                    == "Query must be an object"@,
                ErrorKind::Storage => is_object(query),
                _ => false,
            },
        },
{
    let conn = match init_db(db_path) {
        Ok(conn) => conn,
        Err(e) => {
            return Err(e);
        },
    };
    let statement = match translate_filter(&query) {
        Ok(statement) => statement,
        Err(e) => {
            return Err(e);
        },
    };
    match select(&conn, &statement) {
        Ok(rows) => Ok(documents_of(&rows)),
        Err(e) => Err(engine_failure(ErrorKind::Storage, &e)),
    }
}

/// Stores one prepared document through `conn` and says how that went.
///
/// A document without a string under `_id` or under `createdAt` is refused
/// before anything is handed to the engine, as a `Serialization` failure
/// with the complaint that names what is missing. Every other document is
/// handed over as its row; whether that row is stored is for the engine to
/// say, and a row that it refuses is a `Conflict` or a `Storage` failure.
fn store_document(conn: &rusqlite::Connection, stored: &serde_json::Value) -> (r: Result<
    (),
    StoreError,
>)
    ensures
        match r {
            Ok(_) => identity_complaint(*stored) is None,
            Err(e) => match identity_complaint(*stored) {
                Some(complaint) => e.kind == ErrorKind::Serialization && e.message@ == complaint,
                None => e.kind == ErrorKind::Conflict || e.kind == ErrorKind::Storage,
            },
        },
{
    let row = match encode_row(stored) {
        Ok(row) => row,
        Err(e) => {
            return Err(e);
        },
    };
    match insert_step(run(conn, &insert_statement(&row))) {
        Step::GoOn => Ok(()),
        Step::GiveUp(e) => Err(e),
    }
}

/// Inserts a document into a collection and returns it as it was stored.
///
/// A string under `_id` or `createdAt` is kept as given; a missing one is
/// filled in, with a fresh identifier and with the current time. The
/// document has to be an object, or null for the object without members:
/// every other value is refused as a `Serialization` failure, unless the
/// store did not even open. A document whose `_id` is stored already is
/// refused by the engine, which is a `Conflict`.
pub fn nedb_insert(db_path: &std::path::PathBuf, doc: serde_json::Value) -> (r: Result<
    serde_json::Value,
    StoreError,
>)
    ensures
        match r {
            Ok(stored) => {
                &&& is_stored(doc, stored)
                &&& member_text(stored, id_key()) is Some
                &&& member_text(stored, created_key()) is Some
                &&& member_text(doc, id_key()) is Some ==> member_text(stored, id_key())
                    == member_text(doc, id_key())
                &&& member_text(doc, created_key()) is Some ==> member_text(stored, created_key())
                    == member_text(doc, created_key())
                &&& member_text(doc, id_key()) is None ==> member_text(
                    stored,
                    id_key(),
                )->Some_0.len() == id_length()
            },
            Err(e) => match e.kind {
                ErrorKind::StoreOpen => true,
                ErrorKind::Serialization => !is_document(doc) && e.message@
                    == "Document must be an object"@,
                ErrorKind::Conflict => is_document(doc),
                ErrorKind::Storage => is_document(doc),
                _ => false,
            },
        },
{
    let conn = match init_db(db_path) {
        Ok(conn) => conn,
        Err(e) => {
            return Err(e);
        },
    };
    let id = fresh_id();
    let now = timestamp_now();
    let ghost doc_value = doc;
    let stored = match with_identity(doc, id, now) {
        Ok(stored) => stored,
        Err(e) => {
            return Err(e);
        },
    };
    proof {
        assert(stored_from(doc_value, stored, id@, now@));
        lemma_stored_identifier(doc_value, stored);
    }
    match store_document(&conn, &stored) {
        Ok(_) => Ok(stored),
        Err(e) => Err(e),
    }
}

/// Updates the document that the filter names by its `_id`: the patch's
/// top-level members are merged into it, its `_id` left as it is, and it is
/// written back. Returns how many documents the engine says it changed.
///
/// A filter without a string under `_id` is refused as `UnsupportedQuery`,
/// unless the store did not even open; an identifier that no stored
/// document has is `NotFound`; a stored payload that is no JSON object is a
/// `Serialization` failure; a patch that is no object is a `QueryShape`
/// failure.
pub fn nedb_update(
    db_path: &std::path::PathBuf,
    query: serde_json::Value,
    update: serde_json::Value,
    _options: serde_json::Value,
) -> (r: Result<u64, StoreError>)
    ensures
        match r {
            Ok(_) => member_text(query, id_key()) is Some && is_object(update),
            Err(e) => match e.kind {
                ErrorKind::StoreOpen => true,
                ErrorKind::UnsupportedQuery => member_text(query, id_key()) is None && e.message@
                    == "Update query must contain an _id field"@,
                ErrorKind::NotFound => member_text(query, id_key()) is Some
                    && fetch_complaint().is_prefix_of(e.message@),
                ErrorKind::Serialization => member_text(query, id_key()) is Some,
                ErrorKind::QueryShape => member_text(query, id_key()) is Some && !is_object(
                    update,
                ) && e.message@ == "Update must be an object"@,
                ErrorKind::Storage => member_text(query, id_key()) is Some,
                ErrorKind::Conflict => false,
            },
        },
{
    let conn = match init_db(db_path) {
        Ok(conn) => conn,
        Err(e) => {
            return Err(e);
        },
    };
    let id = match target_id(&query, "Update query must contain an _id field") {
        Ok(id) => id,
        Err(e) => {
            return Err(e);
        },
    };
    let existing = match select_one(&conn, &select_by_id_statement(id.as_str())) {
        Ok(existing) => existing,
        Err(e) => {
            return Err(fetch_failure(found_no_row(&e), sqlite_error_text(&e)));
        },
    };
    let payload = match patched_payload(existing.as_str(), &update) {
        Ok(payload) => payload,
        Err(e) => {
            return Err(e);
        },
    };
    changed_count(run(&conn, &update_statement(payload.as_str(), id.as_str())))
}

/// Removes the document that the filter names by its `_id` and returns how
/// many documents the engine says it removed.
///
/// A filter without a string under `_id` is refused as `UnsupportedQuery`,
/// unless the store did not even open: nothing is handed to the engine for
/// it.
pub fn nedb_remove(
    db_path: &std::path::PathBuf,
    query: serde_json::Value,
    _options: serde_json::Value,
) -> (r: Result<u64, StoreError>)
    ensures
        match r {
            Ok(_) => member_text(query, id_key()) is Some,
            Err(e) => match e.kind {
                ErrorKind::StoreOpen => true,
                ErrorKind::UnsupportedQuery => member_text(query, id_key()) is None && e.message@
                    == "Remove query must contain an _id field"@,
                ErrorKind::Storage => member_text(query, id_key()) is Some,
                _ => false,
            },
        },
{
    let conn = match init_db(db_path) {
        Ok(conn) => conn,
        Err(e) => {
            return Err(e);
        },
    };
    let id = match target_id(&query, "Remove query must contain an _id field") {
        Ok(id) => id,
        Err(e) => {
            return Err(e);
        },
    };
    changed_count(run(&conn, &delete_statement(id.as_str())))
}

/// Removes every document of a collection and returns how many the engine
/// says it removed.
pub fn nedb_clear_collection(db_path: &std::path::PathBuf) -> (r: Result<u64, StoreError>)
    ensures
        r matches Err(e) ==> e.kind == ErrorKind::StoreOpen || e.kind == ErrorKind::Storage,
{
    let conn = match init_db(db_path) {
        Ok(conn) => conn,
        Err(e) => {
            return Err(e);
        },
    };
    changed_count(run(&conn, &clear_statement()))
}

/// Whether every value of a batch can be stored as a document.
pub open spec fn all_documents(docs: Seq<serde_json::Value>) -> bool {
    forall|i: int| 0 <= i < docs.len() ==> is_document(#[trigger] docs[i])
}

/// Inserts a list of documents in one transaction and returns them as they
/// were stored, in the order given. Each document is treated as by
/// `nedb_insert`.
///
/// The documents are handed to the engine one by one, and `insert_step`
/// decides on each answer. The first document that cannot be stored ends
/// the call with its failure: the transaction is dropped without a commit,
/// which rolls it back, so that none of the list is stored. A value that is
/// no document is a `Serialization` failure, and there is no other cause of
/// one; a `Conflict` comes only from a document that was handed to the
/// engine, so that the first of the list, at least, is a document.
pub fn nedb_bulk_insert(db_path: &std::path::PathBuf, docs: Vec<serde_json::Value>) -> (r: Result<
    Vec<serde_json::Value>,
    StoreError,
>)
    ensures
        match r {
            Ok(stored) => {
                &&& all_documents(docs@)
                &&& stored.len() == docs.len()
                &&& forall|i: int|
                    0 <= i < docs.len() ==> is_stored(docs[i], #[trigger] stored[i])
            },
            Err(e) => match e.kind {
                ErrorKind::StoreOpen => true,
                ErrorKind::Serialization => !all_documents(docs@) && e.message@
                    == "Document must be an object"@,
                ErrorKind::Conflict => docs.len() > 0 && is_document(docs[0]),
                ErrorKind::Storage => true,
                _ => false,
            },
        },
{
    let mut conn = match init_db(db_path) {
        Ok(conn) => conn,
        Err(e) => {
            return Err(e);
        },
    };
    let tx = match begin(&mut conn) {
        Ok(tx) => tx,
        Err(e) => {
            return Err(engine_failure(ErrorKind::Storage, &e));
        },
    };
    let mut inserted: Vec<serde_json::Value> = Vec::new();
    let mut i: usize = 0;
    while i < docs.len()
        invariant
            i <= docs.len(),
            inserted.len() == i,
            forall|j: int| 0 <= j < i ==> is_stored(docs[j], #[trigger] inserted[j]),
        decreases docs.len() - i,
    {
        let id = fresh_id();
        let now = timestamp_now();
        let stored = match with_identity(docs[i].clone(), id, now) {
            Ok(stored) => stored,
            Err(e) => {
                assert(!is_document(docs@[i as int]));
                return Err(e);
            },
        };
        proof {
            assert(stored_from(docs[i as int], stored, id@, now@));
            lemma_stored_identifier(docs[i as int], stored);
        }
        match store_document(connection_of(&tx), &stored) {
            Ok(_) => {},
            Err(e) => {
                proof {
                    if i > 0 {
                        assert(is_stored(docs[0], inserted[0]));
                    }
                }
                return Err(e);
            },
        }
        let ghost before = inserted@;
        inserted.push(stored);
        proof {
            assert forall|j: int| 0 <= j < i + 1 implies is_stored(
                docs[j],
                #[trigger] inserted[j],
            ) by {
                if j < i {
                    assert(inserted[j] == before[j]);
                }
            }
        }
        i = i + 1;
    }
    proof {
        assert forall|j: int| 0 <= j < docs.len() implies is_document(#[trigger] docs@[j]) by {
            assert(is_stored(docs[j], inserted[j]));
        }
    }
    match commit(tx) {
        Ok(_) => Ok(inserted),
        Err(e) => Err(engine_failure(ErrorKind::Storage, &e)),
    }
}

} // verus!

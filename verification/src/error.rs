use vstd::prelude::*;

verus! {

/// The ways an operation on the store can fail.
#[derive(Clone, Copy, Debug, PartialEq, Eq, Structural)]
pub enum ErrorKind {
    /// The store's file could not be opened or its table not be made.
    StoreOpen,
    /// A filter or a patch that has to be a JSON object is none.
    QueryShape,
    /// The filter of an update or a removal names no `_id`.
    UnsupportedQuery,
    /// A document with this `_id` is stored already.
    Conflict,
    /// No stored document has the `_id` that an update names.
    NotFound,
    /// A document could not be turned into its stored text, or back.
    Serialization,
    /// The engine refused a statement for another reason.
    Storage,
}

/// A failure, with the message that goes to the caller.
#[derive(Debug)]
pub struct StoreError {
    pub kind: ErrorKind,
    pub message: String,
}

impl StoreError {
    /// A failure of the given kind with the given message.
    pub fn new(kind: ErrorKind, message: String) -> (e: StoreError)
        ensures
            e.kind == kind,
            e.message@ == message@,
    {
        StoreError { kind, message }
    }

    /// A failure of the given kind whose message is `text`.
    pub fn with_text(kind: ErrorKind, text: &str) -> (e: StoreError)
        ensures
            e.kind == kind,
            e.message@ == text@,
    {
        StoreError { kind, message: String::from_str(text) }
    }

    /// The message, as the caller is to see it.
    pub fn to_text(&self) -> (text: String)
        ensures
            text@ == self.message@,
    {
        self.message.clone()
    }
}

} // verus!

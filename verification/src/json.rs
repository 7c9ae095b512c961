use vstd::prelude::*;

verus! {

/// `serde_json::Value`, a JSON value. The verifier sees none of its inside;
/// what the store reads of it goes by `json_shape`.
#[verifier::external_type_specification]
#[verifier::external_body]
pub struct ExValue(serde_json::Value);

/// `serde_json::Error`, of which only the message is read.
#[verifier::external_type_specification]
#[verifier::external_body]
pub struct ExJsonError(serde_json::Error);

/// What the store reads of a JSON value: its kind, the text of a string, the
/// value of a whole number that fits 64 bits with a sign, and the members of
/// an object in the order in which the value hands them out.
pub enum Shape {
    Text(Seq<char>),
    /// A whole number in the signed 64-bit range.
    Integer(i64),
    /// Any other number: one with a fraction or an exponent, or a whole
    /// number above that range.
    Real,
    Object(Seq<(Seq<char>, serde_json::Value)>),
    Null,
    /// A boolean or an array.
    Other,
}

/// The shape of a `serde_json::Value`.
pub uninterp spec fn json_shape(v: serde_json::Value) -> Shape;

/// The text that `serde_json::to_string` writes for a value.
pub uninterp spec fn json_text(v: serde_json::Value) -> Seq<char>;

/// The value that `serde_json::from_str` reads from a text, if it reads one.
pub uninterp spec fn json_value(text: Seq<char>) -> Option<serde_json::Value>;

pub open spec fn is_object(v: serde_json::Value) -> bool {
    json_shape(v) is Object
}

pub open spec fn is_null(v: serde_json::Value) -> bool {
    json_shape(v) is Null
}

pub open spec fn is_number(v: serde_json::Value) -> bool {
    json_shape(v) is Integer || json_shape(v) is Real
}

/// The members of an object as exec code holds them, by their views.
pub open spec fn entry_views(e: Seq<(String, serde_json::Value)>) -> Seq<
    (Seq<char>, serde_json::Value),
> {
    Seq::new(e.len(), |i: int| (e[i].0@, e[i].1))
}

pub open spec fn distinct_keys(e: Seq<(Seq<char>, serde_json::Value)>) -> bool {
    forall|i: int, j: int| 0 <= i < j < e.len() ==> (#[trigger] e[i]).0 != (#[trigger] e[j]).0
}

pub open spec fn has_key(e: Seq<(Seq<char>, serde_json::Value)>, key: Seq<char>) -> bool {
    exists|i: int| 0 <= i < e.len() && (#[trigger] e[i]).0 == key
}

pub open spec fn key_index(e: Seq<(Seq<char>, serde_json::Value)>, key: Seq<char>) -> int {
    choose|i: int| 0 <= i < e.len() && (#[trigger] e[i]).0 == key
}

/// The members as a map from name to value.
pub open spec fn entries_map(e: Seq<(Seq<char>, serde_json::Value)>) -> Map<
    Seq<char>,
    serde_json::Value,
> {
    Map::new(|k: Seq<char>| has_key(e, k), |k: Seq<char>| e[key_index(e, k)].1)
}

/// The members of an object; no members for any other value.
pub open spec fn members(v: serde_json::Value) -> Map<Seq<char>, serde_json::Value> {
    match json_shape(v) {
        Shape::Object(e) => entries_map(e),
        _ => Map::empty(),
    }
}

/// `serde_json::Value::as_str`, with the text copied: the string that the
/// value holds, and `None` for a value that is no string.
#[verifier::external_body]
pub(crate) fn text_of(v: &serde_json::Value) -> (r: Option<String>)
    ensures
        match r {
            Some(s) => json_shape(*v) == Shape::Text(s@),
            None => !(json_shape(*v) is Text),
        },
{
    v.as_str().map(str::to_owned)
}

/// `serde_json::Value::as_i64`: the number, where the value is a whole number
/// in the signed 64-bit range, and `None` for every other value.
#[verifier::external_body]
pub(crate) fn integer_of(v: &serde_json::Value) -> (r: Option<i64>)
    ensures
        match r {
            Some(n) => json_shape(*v) == Shape::Integer(n),
            None => !(json_shape(*v) is Integer),
        },
{
    v.as_i64()
}

/// `serde_json::Value::is_number`: whether the value is a number of any kind.
#[verifier::external_body]
pub(crate) fn holds_number(v: &serde_json::Value) -> (r: bool)
    ensures
        r == is_number(*v),
{
    v.is_number()
}

/// `serde_json::Value::is_null`: whether the value is JSON's null.
#[verifier::external_body]
pub(crate) fn holds_null(v: &serde_json::Value) -> (r: bool)
    ensures
        r == is_null(*v),
{
    v.is_null()
}

/// `serde_json::Value::as_object` and a walk over the map: the members of an
/// object, copied, in the map's order and with no name twice; `None` for a
/// value that is no object.
#[verifier::external_body]
pub(crate) fn entries_of(v: &serde_json::Value) -> (r: Option<Vec<(String, serde_json::Value)>>)
    ensures
        match r {
            Some(e) => json_shape(*v) == Shape::Object(entry_views(e@)) && distinct_keys(
                entry_views(e@),
            ),
            None => !is_object(*v),
        },
{
    v.as_object().map(|m| m.iter().map(|(k, x)| (k.clone(), x.clone())).collect())
}

/// `Clone::clone` of a `serde_json::Value`: the same value once more.
pub assume_specification[ <serde_json::Value as Clone>::clone ](v: &serde_json::Value) -> (r:
    serde_json::Value)
    ensures
        r == *v,
;

/// `serde_json::Value::String`: the JSON string with the given text.
#[verifier::external_body]
pub(crate) fn text_value(s: String) -> (v: serde_json::Value)
    ensures
        json_shape(v) == Shape::Text(s@),
{
    serde_json::Value::String(s)
}

/// Assignment through `serde_json::Value`'s `IndexMut`, which takes an
/// object or null and panics on every other value: the member of that name
/// is put in or replaced, the others stay, and null becomes an object first.
#[verifier::external_body]
pub(crate) fn set_member(doc: &mut serde_json::Value, key: &str, value: serde_json::Value)
    requires
        is_object(*old(doc)) || is_null(*old(doc)),
    ensures
        is_object(*final(doc)),
        members(*final(doc)) == members(*old(doc)).insert(key@, value),
{
    doc[key] = value;
}

/// `serde_json::to_string` on a value. The writer fails only where its sink
/// fails or a map has a key that is no string; the sink here is a buffer in
/// memory and the keys of a value are strings, so it gives a text for every
/// value.
#[verifier::external_body]
pub(crate) fn to_text(v: &serde_json::Value) -> (r: Result<String, serde_json::Error>)
    ensures
        r is Ok,
        r matches Ok(s) ==> s@ == json_text(*v),
{
    serde_json::to_string(v)
}

/// `serde_json::from_str` to a value.
#[verifier::external_body]
pub(crate) fn parse(text: &str) -> (r: Result<serde_json::Value, serde_json::Error>)
    ensures
        match r {
            Ok(v) => json_value(text@) == Some(v),
            Err(_) => json_value(text@) is None,
        },
{
    serde_json::from_str(text)
}

/// The message of a `serde_json::Error`, as its `Display` writes it.
#[verifier::external_body]
pub(crate) fn json_error_text(e: &serde_json::Error) -> (text: String)
{
    e.to_string()
}

/// In a list of members with no name twice, each member is what the map
/// holds under its name.
pub proof fn lemma_entry_in_map(e: Seq<(Seq<char>, serde_json::Value)>, i: int)
    requires
        distinct_keys(e),
        0 <= i < e.len(),
    ensures
        has_key(e, e[i].0),
        key_index(e, e[i].0) == i,
        entries_map(e).contains_key(e[i].0),
        entries_map(e)[e[i].0] == e[i].1,
{
    let k = e[i].0;
    assert(has_key(e, k));
    let j = key_index(e, k);
    assert(0 <= j < e.len() && e[j].0 == k);
    if j != i {
        if j < i {
            assert(e[j].0 != e[i].0);
        } else {
            assert(e[i].0 != e[j].0);
        }
    }
}

/// The index of the first member called `key`, if there is one.
pub fn find_entry(e: &Vec<(String, serde_json::Value)>, key: &str) -> (r: Option<usize>)
    ensures
        match r {
            Some(i) => {
                &&& i < e.len()
                &&& entry_views(e@)[i as int].0 == key@
                &&& forall|j: int| 0 <= j < i ==> (#[trigger] entry_views(e@)[j]).0 != key@
            },
            None => !has_key(entry_views(e@), key@),
        },
{
    let wanted = String::from_str(key);
    let mut i: usize = 0;
    while i < e.len()
        invariant
            i <= e.len(),
            wanted@ == key@,
            forall|j: int| 0 <= j < i ==> (#[trigger] entry_views(e@)[j]).0 != key@,
        decreases e.len() - i,
    {
        if e[i].0 == wanted {
            return Some(i);
        }
        i = i + 1;
    }
    None
}

/// The text of the member called `key`: `Some` exactly where `v` is an
/// object that holds a string under that name.
pub open spec fn member_text(v: serde_json::Value, key: Seq<char>) -> Option<Seq<char>> {
    if members(v).contains_key(key) {
        match json_shape(members(v)[key]) {
            Shape::Text(t) => Some(t),
            _ => None,
        }
    } else {
        None
    }
}

/// The string that an object holds under `key`, copied.
pub fn text_member(v: &serde_json::Value, key: &str) -> (r: Option<String>)
    ensures
        match r {
            Some(s) => member_text(*v, key@) == Some(s@),
            None => member_text(*v, key@) is None,
        },
{
    match entries_of(v) {
        None => None,
        Some(e) => {
            match find_entry(&e, key) {
                None => None,
                Some(i) => {
                    proof {
                        lemma_entry_in_map(entry_views(e@), i as int);
                    }
                    text_of(&e[i].1)
                },
            }
        },
    }
}

} // verus!

use vstd::prelude::*;
use crate::codec::Row;
use crate::error::{ErrorKind, StoreError};
use crate::json::{
    entries_of, entry_views, holds_number, integer_of, is_number, is_object, json_shape,
    member_text, text_member, text_of, Shape,
};

verus! {

/// A value that is bound to a placeholder of a statement. A number that is
/// no `Integer` is carried as the JSON number that holds it, and bound as a
/// float.
#[derive(Clone, Debug, PartialEq)]
pub enum Param {
    Text(String),
    Integer(i64),
    Real(serde_json::Value),
}

pub enum ParamView {
    Text(Seq<char>),
    Integer(i64),
    Real(serde_json::Value),
}

impl View for Param {
    type V = ParamView;

    open spec fn view(&self) -> ParamView {
        match self {
            Param::Text(s) => ParamView::Text(s@),
            Param::Integer(n) => ParamView::Integer(*n),
            Param::Real(v) => ParamView::Real(*v),
        }
    }
}

/// A statement for the engine: its text, and the values for its placeholders
/// `?1`, `?2`, ... in that order. No value is ever written into the text.
#[derive(Clone, Debug, PartialEq)]
pub struct Statement {
    pub sql: String,
    pub params: Vec<Param>,
}

pub open spec fn param_views(p: Seq<Param>) -> Seq<ParamView> {
    Seq::new(p.len(), |i: int| p[i]@)
}

impl ParamView {
    /// What is carried as a number is one.
    pub open spec fn well_formed(self) -> bool {
        self matches ParamView::Real(v) ==> json_shape(v) is Real
    }
}

pub open spec fn all_well_formed(p: Seq<ParamView>) -> bool {
    forall|i: int| 0 <= i < p.len() ==> (#[trigger] p[i]).well_formed()
}

impl Statement {
    /// The statement has this text and binds these values.
    pub open spec fn made_of(&self, sql: Seq<char>, params: Seq<ParamView>) -> bool {
        self.sql@ == sql && param_views(self.params@) == params
    }

    /// Every value that the statement binds is well formed.
    pub open spec fn well_formed(&self) -> bool {
        all_well_formed(param_views(self.params@))
    }
}

pub open spec fn digit(d: nat) -> char {
    if d == 0 {
        '0'
    } else if d == 1 {
        '1'
    } else if d == 2 {
        '2'
    } else if d == 3 {
        '3'
    } else if d == 4 {
        '4'
    } else if d == 5 {
        '5'
    } else if d == 6 {
        '6'
    } else if d == 7 {
        '7'
    } else if d == 8 {
        '8'
    } else {
        '9'
    }
}

/// The decimal numeral of `n`, without leading zeros.
pub open spec fn decimal(n: nat) -> Seq<char>
    decreases n,
{
    if n < 10 {
        seq![digit(n)]
    } else {
        decimal(n / 10).push(digit(n % 10))
    }
}

fn digit_text(d: usize) -> (s: &'static str)
    requires
        d < 10,
    ensures
        s@ == seq![digit(d as nat)],
{
    proof {
        reveal_strlit("0");
        reveal_strlit("1");
        reveal_strlit("2");
        reveal_strlit("3");
        reveal_strlit("4");
        reveal_strlit("5");
        reveal_strlit("6");
        reveal_strlit("7");
        reveal_strlit("8");
        reveal_strlit("9");
    }
    if d == 0 {
        "0"
    } else if d == 1 {
        "1"
    } else if d == 2 {
        "2"
    } else if d == 3 {
        "3"
    } else if d == 4 {
        "4"
    } else if d == 5 {
        "5"
    } else if d == 6 {
        "6"
    } else if d == 7 {
        "7"
    } else if d == 8 {
        "8"
    } else {
        "9"
    }
}

/// The decimal numeral of `n` as a string.
pub fn decimal_text(n: usize) -> (s: String)
    ensures
        s@ == decimal(n as nat),
    decreases n,
{
    if n < 10 {
        String::from_str(digit_text(n))
    } else {
        let mut s = decimal_text(n / 10);
        s.append(digit_text(n % 10));
        s
    }
}

/// Whether a member of a filter takes part in the predicate: strings and
/// numbers do, every other value is passed over.
pub open spec fn filters_on(v: serde_json::Value) -> bool {
    json_shape(v) is Text || is_number(v)
}

/// The value that is bound for a member that takes part, if one is bound.
pub open spec fn bound_param(v: serde_json::Value) -> Option<ParamView> {
    match json_shape(v) {
        Shape::Text(t) => Some(ParamView::Text(t)),
        Shape::Integer(n) => Some(ParamView::Integer(n)),
        Shape::Real => Some(ParamView::Real(v)),
        _ => None,
    }
}

/// How many of the members take part.
pub open spec fn clause_count(e: Seq<(Seq<char>, serde_json::Value)>) -> nat
    decreases e.len(),
{
    if e.len() == 0 {
        0
    } else if filters_on(e.last().1) {
        clause_count(e.drop_last()) + 1
    } else {
        clause_count(e.drop_last())
    }
}

pub open spec fn select_text() -> Seq<char> {
    "SELECT data FROM documents WHERE 1=1"@
}

/// A field's name as it stands inside the quoted path of a condition: every
/// quote in it is doubled, so that it stays a part of the path.
pub open spec fn escaped(key: Seq<char>) -> Seq<char>
    decreases key.len(),
{
    if key.len() == 0 {
        Seq::empty()
    } else if key.last() == '\'' {
        escaped(key.drop_last()).push('\'').push('\'')
    } else {
        escaped(key.drop_last()).push(key.last())
    }
}

/// Whether a text can stand between two quotes without ending what they
/// enclose: its quotes come in pairs.
pub open spec fn stays_quoted(s: Seq<char>) -> bool
    decreases s.len(),
{
    if s.len() == 0 {
        true
    } else if s.last() != '\'' {
        stays_quoted(s.drop_last())
    } else {
        s.len() >= 2 && s[s.len() - 2] == '\'' && stays_quoted(s.take(s.len() - 2))
    }
}

/// However a field is called, its name does not end the quoted path that it
/// is written into.
pub proof fn lemma_escaped_stays_quoted(key: Seq<char>)
    ensures
        stays_quoted(escaped(key)),
    decreases key.len(),
{
    if key.len() > 0 {
        lemma_escaped_stays_quoted(key.drop_last());
        let shorter = escaped(key.drop_last());
        if key.last() == '\'' {
            let s = shorter.push('\'').push('\'');
            assert(s.take(s.len() - 2) =~= shorter);
        } else {
            let s = shorter.push(key.last());
            assert(s.drop_last() =~= shorter);
        }
    }
}

/// The condition on one field: the field's name stands in the path, the
/// value behind placeholder `n`.
pub open spec fn clause(key: Seq<char>, n: nat) -> Seq<char> {
    " AND json_extract(data, '$."@ + escaped(key) + "') = ?"@ + decimal(n)
}

/// The conditions of all members that take part, in the members' order,
/// with the placeholders numbered from 1.
pub open spec fn where_text(e: Seq<(Seq<char>, serde_json::Value)>) -> Seq<char>
    decreases e.len(),
{
    if e.len() == 0 {
        Seq::empty()
    } else if filters_on(e.last().1) {
        where_text(e.drop_last()) + clause(e.last().0, clause_count(e))
    } else {
        where_text(e.drop_last())
    }
}

/// The values that are bound, in the members' order.
pub open spec fn where_params(e: Seq<(Seq<char>, serde_json::Value)>) -> Seq<ParamView>
    decreases e.len(),
{
    if e.len() == 0 {
        Seq::empty()
    } else {
        match bound_param(e.last().1) {
            Some(p) => where_params(e.drop_last()).push(p),
            None => where_params(e.drop_last()),
        }
    }
}

/// Each condition of a filter has its value bound: there are as many values
/// as placeholders.
pub proof fn lemma_every_placeholder_is_bound(e: Seq<(Seq<char>, serde_json::Value)>)
    ensures
        where_params(e).len() == clause_count(e),
    decreases e.len(),
{
    if e.len() > 0 {
        lemma_every_placeholder_is_bound(e.drop_last());
    }
}

/// Every value that a filter binds is well formed.
pub proof fn lemma_where_params_well_formed(e: Seq<(Seq<char>, serde_json::Value)>)
    ensures
        all_well_formed(where_params(e)),
    decreases e.len(),
{
    if e.len() > 0 {
        lemma_where_params_well_formed(e.drop_last());
    }
}

/// A field's name with every quote doubled.
pub fn escape_name(key: &str) -> (s: String)
    ensures
        s@ == escaped(key@),
{
    let len = key.unicode_len();
    let mut s = String::new();
    let mut i: usize = 0;
    proof {
        assert(key@.take(0) =~= Seq::empty());
    }
    while i < len
        invariant
            i <= len,
            len == key@.len(),
            s@ == escaped(key@.take(i as int)),
        decreases len - i,
    {
        proof {
            assert(key@.take(i as int + 1).drop_last() =~= key@.take(i as int));
            assert(key@.take(i as int + 1).last() == key@[i as int]);
        }
        let ghost before = s@;
        if key.get_char(i) == '\'' {
            proof {
                reveal_strlit("''");
            }
            s.append("''");
            assert(s@ =~= before.push('\'').push('\''));
        } else {
            s.append(key.substring_char(i, i + 1));
            assert(s@ =~= before.push(key@[i as int]));
        }
        i = i + 1;
    }
    proof {
        assert(key@.take(i as int) =~= key@);
    }
    s
}

/// The text of the condition on `key` behind placeholder `n`.
pub fn clause_text(key: &str, n: usize) -> (s: String)
    ensures
        s@ == clause(key@, n as nat),
{
    let mut s = String::from_str(" AND json_extract(data, '$.");
    let name = escape_name(key);
    s.append(name.as_str());
    s.append("') = ?");
    let numeral = decimal_text(n);
    s.append(numeral.as_str());
    s
}

/// An empty filter adds no condition and binds nothing: it selects every
/// document.
pub proof fn lemma_empty_filter()
    ensures
        where_text(Seq::empty()) == Seq::<char>::empty(),
        where_params(Seq::empty()) == Seq::<ParamView>::empty(),
        select_text() + where_text(Seq::empty()) == select_text(),
{
    assert(select_text() + Seq::<char>::empty() =~= select_text());
}

/// A filter with one member that holds a string asks for the field of that
/// name to equal that string, which is bound to the first placeholder.
pub proof fn lemma_filter_on_one_text(key: Seq<char>, value: serde_json::Value, text: Seq<char>)
    requires
        json_shape(value) == Shape::Text(text),
    ensures
        where_text(seq![(key, value)]) == clause(key, 1),
        where_params(seq![(key, value)]) == seq![ParamView::Text(text)],
{
    let e = seq![(key, value)];
    assert(e.drop_last() =~= Seq::empty());
    assert(e.last() == (key, value));
    assert(clause_count(e.drop_last()) == 0);
    assert(clause_count(e) == 1);
    assert(where_text(e.drop_last()) =~= Seq::empty());
    assert(where_text(e) =~= clause(key, 1));
    assert(where_params(e.drop_last()) =~= Seq::empty());
    assert(where_params(e) =~= seq![ParamView::Text(text)]);
}

/// A member that holds neither a string nor a number changes nothing: the
/// filter selects what it selects without that member.
pub proof fn lemma_member_passed_over(
    e: Seq<(Seq<char>, serde_json::Value)>,
    key: Seq<char>,
    value: serde_json::Value,
)
    requires
        !filters_on(value),
    ensures
        where_text(e.push((key, value))) == where_text(e),
        where_params(e.push((key, value))) == where_params(e),
        clause_count(e.push((key, value))) == clause_count(e),
{
    let longer = e.push((key, value));
    assert(longer.drop_last() =~= e);
    assert(longer.last() == (key, value));
}

/// Translates a filter into the statement that selects the payloads of the
/// documents it matches. An empty object selects every document. Each member
/// whose value is a string or a number adds one equality on the field of that
/// name; members with other values add nothing; all conditions must hold.
pub fn translate_filter(query: &serde_json::Value) -> (r: Result<Statement, StoreError>)
    ensures
        match r {
            Ok(st) => {
                &&& st.well_formed()
                &&& json_shape(*query) matches Shape::Object(e)
                &&& st.made_of(select_text() + where_text(e), where_params(e))
            },
            Err(err) => !is_object(*query) && err.kind == ErrorKind::QueryShape && err.message@
                == "Query must be an object"@,
        },
{
    let entries = match entries_of(query) {
        Some(e) => e,
        None => {
            return Err(StoreError::with_text(ErrorKind::QueryShape, "Query must be an object"));
        },
    };
    let ghost e = entry_views(entries@);
    let mut sql = String::from_str("SELECT data FROM documents WHERE 1=1");
    let mut params: Vec<Param> = Vec::new();
    let mut count: usize = 0;
    let mut i: usize = 0;
    proof {
        assert(e.take(0) =~= Seq::empty());
        assert(param_views(params@) =~= where_params(e.take(0)));
    }
    while i < entries.len()
        invariant
            i <= entries.len(),
            e == entry_views(entries@),
            count == clause_count(e.take(i as int)),
            count <= i,
            sql@ == select_text() + where_text(e.take(i as int)),
            param_views(params@) == where_params(e.take(i as int)),
        decreases entries.len() - i,
    {
        let value = &entries[i].1;
        let ghost before = e.take(i as int);
        let ghost upto = e.take(i as int + 1);
        let ghost old_params = param_views(params@);
        proof {
            assert(upto.drop_last() =~= before);
            assert(upto.last() == e[i as int]);
            assert(e[i as int].1 == *value);
        }
        match text_of(value) {
            Some(s) => {
                count = count + 1;
                let piece = clause_text(entries[i].0.as_str(), count);
                sql.append(piece.as_str());
                params.push(Param::Text(s));
                proof {
                    assert(param_views(params@) =~= old_params.push(ParamView::Text(s@)));
                }
            },
            None => {
                match integer_of(value) {
                    Some(n) => {
                        count = count + 1;
                        let piece = clause_text(entries[i].0.as_str(), count);
                        sql.append(piece.as_str());
                        params.push(Param::Integer(n));
                        proof {
                            assert(param_views(params@) =~= old_params.push(
                                ParamView::Integer(n),
                            ));
                        }
                    },
                    None => {
                        if holds_number(value) {
                            count = count + 1;
                            let piece = clause_text(entries[i].0.as_str(), count);
                            sql.append(piece.as_str());
                            params.push(Param::Real(value.clone()));
                            proof {
                                assert(param_views(params@) =~= old_params.push(
                                    ParamView::Real(*value),
                                ));
                            }
                        } else {
                            proof {
                                assert(param_views(params@) =~= old_params);
                            }
                        }
                    },
                }
            },
        }
        i = i + 1;
    }
    proof {
        assert(e.take(i as int) =~= e);
        lemma_where_params_well_formed(e);
    }
    Ok(Statement { sql, params })
}

pub open spec fn insert_text() -> Seq<char> {
    "INSERT INTO documents (_id, created_at, data) VALUES (?1, ?2, ?3)"@
}

pub open spec fn select_by_id_text() -> Seq<char> {
    "SELECT data FROM documents WHERE _id = ?1"@
}

pub open spec fn update_text() -> Seq<char> {
    "UPDATE documents SET data = ?1 WHERE _id = ?2"@
}

pub open spec fn delete_text() -> Seq<char> {
    "DELETE FROM documents WHERE _id = ?1"@
}

pub open spec fn clear_text() -> Seq<char> {
    "DELETE FROM documents"@
}

fn text_params(values: Vec<String>) -> (params: Vec<Param>)
    ensures
        param_views(params@) == Seq::new(values@.len(), |i: int| ParamView::Text(values@[i]@)),
{
    let mut params: Vec<Param> = Vec::new();
    let mut i: usize = 0;
    while i < values.len()
        invariant
            i <= values.len(),
            params.len() == i,
            forall|j: int| 0 <= j < i ==> (#[trigger] params[j])@ == ParamView::Text(values[j]@),
        decreases values.len() - i,
    {
        params.push(Param::Text(values[i].clone()));
        i = i + 1;
    }
    assert(param_views(params@) =~= Seq::new(values@.len(), |i: int| ParamView::Text(values@[i]@)));
    params
}

/// The statement that stores one row: the identifier, the time of creation
/// and the payload, each bound to its placeholder.
pub fn insert_statement(row: &Row) -> (st: Statement)
    ensures
        st.well_formed(),
        st.made_of(
            insert_text(),
            seq![
                ParamView::Text(row.id@),
                ParamView::Text(row.created_at@),
                ParamView::Text(row.data@),
            ],
        ),
{
    let mut values: Vec<String> = Vec::new();
    values.push(row.id.clone());
    values.push(row.created_at.clone());
    values.push(row.data.clone());
    let st = Statement {
        sql: String::from_str("INSERT INTO documents (_id, created_at, data) VALUES (?1, ?2, ?3)"),
        params: text_params(values),
    };
    assert(param_views(st.params@) =~= seq![
        ParamView::Text(row.id@),
        ParamView::Text(row.created_at@),
        ParamView::Text(row.data@),
    ]);
    st
}

/// The statement that selects the payload of the row with the given
/// identifier.
pub fn select_by_id_statement(id: &str) -> (st: Statement)
    ensures
        st.well_formed(),
        st.made_of(select_by_id_text(), seq![ParamView::Text(id@)]),
{
    let mut values: Vec<String> = Vec::new();
    values.push(String::from_str(id));
    let st = Statement {
        sql: String::from_str("SELECT data FROM documents WHERE _id = ?1"),
        params: text_params(values),
    };
    assert(param_views(st.params@) =~= seq![ParamView::Text(id@)]);
    st
}

/// The statement that overwrites the payload of the row with the given
/// identifier.
pub fn update_statement(data: &str, id: &str) -> (st: Statement)
    ensures
        st.well_formed(),
        st.made_of(update_text(), seq![ParamView::Text(data@), ParamView::Text(id@)]),
{
    let mut values: Vec<String> = Vec::new();
    values.push(String::from_str(data));
    values.push(String::from_str(id));
    let st = Statement {
        sql: String::from_str("UPDATE documents SET data = ?1 WHERE _id = ?2"),
        params: text_params(values),
    };
    assert(param_views(st.params@) =~= seq![ParamView::Text(data@), ParamView::Text(id@)]);
    st
}

/// The statement that deletes the row with the given identifier.
pub fn delete_statement(id: &str) -> (st: Statement)
    ensures
        st.well_formed(),
        st.made_of(delete_text(), seq![ParamView::Text(id@)]),
{
    let mut values: Vec<String> = Vec::new();
    values.push(String::from_str(id));
    let st = Statement {
        sql: String::from_str("DELETE FROM documents WHERE _id = ?1"),
        params: text_params(values),
    };
    assert(param_views(st.params@) =~= seq![ParamView::Text(id@)]);
    st
}

/// The statement that deletes every row.
pub fn clear_statement() -> (st: Statement)
    ensures
        st.well_formed(),
        st.made_of(clear_text(), Seq::empty()),
{
    let st = Statement { sql: String::from_str("DELETE FROM documents"), params: Vec::new() };
    assert(param_views(st.params@) =~= Seq::empty());
    st
}

/// The identifier that the filter of an update or a removal names: the
/// string under `_id`. A filter that is no object, or has no string there,
/// is refused as `UnsupportedQuery`, with `complaint` as the message.
pub fn target_id(query: &serde_json::Value, complaint: &str) -> (r: Result<String, StoreError>)
    ensures
        match r {
            Ok(id) => member_text(*query, "_id"@) == Some(id@),
            Err(e) => member_text(*query, "_id"@) is None && e.kind == ErrorKind::UnsupportedQuery
                && e.message@ == complaint@,
        },
{
    match text_member(query, "_id") {
        Some(id) => Ok(id),
        None => Err(StoreError::with_text(ErrorKind::UnsupportedQuery, complaint)),
    }
}

} // verus!

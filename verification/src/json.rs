//! The generic JSON tree that the structural mapper walks, and the strict
//! JSON parser behind it.
//!
//! Strict parsing itself is done by `serde_json`; everything after it works
//! on the [`Json`] tree, a plain value that the contracts can speak about
//! through its view [`JsonV`].  Object members come out ordered by key —
//! `serde_json`'s default map is a `BTreeMap`, which also resolves duplicate
//! keys to the last binding — and a lookup takes the first binding of a key.

use vstd::prelude::*;

use crate::text;

verus! {

/// A strict JSON value.  Numbers are narrowed on entry to the only numeric
/// shape the schema reads: `Num(Some(n))` is a non-negative integer that
/// fits in `u32`, `Num(None)` any other number.
pub enum Json {
    Null,
    Bool(bool),
    Num(Option<u32>),
    Text(String),
    Arr(Vec<Json>),
    Obj(Vec<(String, Json)>),
}

/// The mathematical shape of a [`Json`] value.
pub enum JsonV {
    Null,
    Bool(bool),
    Num(Option<u32>),
    Text(Seq<char>),
    Arr(Seq<JsonV>),
    Obj(Seq<(Seq<char>, JsonV)>),
}

/// The view of one [`Json`] value.
pub open spec fn view_json(j: Json) -> JsonV
    decreases j,
{
    match j {
        Json::Null => JsonV::Null,
        Json::Bool(b) => JsonV::Bool(b),
        Json::Num(n) => JsonV::Num(n),
        Json::Text(s) => JsonV::Text(s@),
        Json::Arr(a) => JsonV::Arr(view_arr(a@)),
        Json::Obj(m) => JsonV::Obj(entries_view(m@)),
    }
}

/// The view of an array's element list.
pub open spec fn view_arr(a: Seq<Json>) -> Seq<JsonV>
    decreases a,
{
    if a.len() == 0 {
        Seq::empty()
    } else {
        seq![view_json(a[0])] + view_arr(a.drop_first())
    }
}

/// The view of an object's member list.
pub open spec fn entries_view(m: Seq<(String, Json)>) -> Seq<(Seq<char>, JsonV)>
    decreases m,
{
    if m.len() == 0 {
        Seq::empty()
    } else {
        seq![(m[0].0@, view_json(m[0].1))] + entries_view(m.drop_first())
    }
}

impl View for Json {
    type V = JsonV;

    open spec fn view(&self) -> JsonV {
        view_json(*self)
    }
}

/// The element views of an array, element by element.
pub broadcast proof fn lemma_view_arr(a: Seq<Json>)
    ensures
        (#[trigger] view_arr(a)).len() == a.len(),
        forall|i: int| 0 <= i < a.len() ==> view_arr(a)[i] == view_json(a[i]),
    decreases a,
{
    if a.len() > 0 {
        lemma_view_arr(a.drop_first());
    }
}

/// The member views of an object, member by member.
pub broadcast proof fn lemma_entries_view(m: Seq<(String, Json)>)
    ensures
        (#[trigger] entries_view(m)).len() == m.len(),
        forall|i: int|
            0 <= i < m.len() ==> entries_view(m)[i] == (m[i].0@, view_json(m[i].1)),
    decreases m,
{
    if m.len() > 0 {
        lemma_entries_view(m.drop_first());
    }
}

/// The six JSON kinds, as named by the error values.
#[derive(Clone, Copy, Debug, PartialEq, Eq, Structural)]
pub enum JsonKind {
    Null,
    Bool,
    Number,
    Text,
    Arr,
    Obj,
}

/// The kind of a JSON value.
pub open spec fn kind_of(v: JsonV) -> JsonKind {
    match v {
        JsonV::Null => JsonKind::Null,
        JsonV::Bool(_) => JsonKind::Bool,
        JsonV::Num(_) => JsonKind::Number,
        JsonV::Text(_) => JsonKind::Text,
        JsonV::Arr(_) => JsonKind::Arr,
        JsonV::Obj(_) => JsonKind::Obj,
    }
}

/// The kind of a [`Json`] value.
pub fn kind(j: &Json) -> (k: JsonKind)
    ensures
        k == kind_of(j@),
{
    match j {
        Json::Null => JsonKind::Null,
        Json::Bool(_) => JsonKind::Bool,
        Json::Num(_) => JsonKind::Number,
        Json::Text(_) => JsonKind::Text,
        Json::Arr(_) => JsonKind::Arr,
        Json::Obj(_) => JsonKind::Obj,
    }
}

/// The value bound to `k` in the member list `m`: the first binding wins.
pub open spec fn lookup(m: Seq<(Seq<char>, JsonV)>, k: Seq<char>) -> Option<JsonV>
    decreases m.len(),
{
    if m.len() == 0 {
        None
    } else if m[0].0 == k {
        Some(m[0].1)
    } else {
        lookup(m.drop_first(), k)
    }
}

/// Looks a key up in an object's member list.
pub fn get<'a>(m: &'a Vec<(String, Json)>, key: &str) -> (r: Option<&'a Json>)
    ensures
        match r {
            Some(j) => lookup(entries_view(m@), key@) == Some(j@),
            None => lookup(entries_view(m@), key@) is None,
        },
{
    proof {
        lemma_entries_view(m@);
        assert(entries_view(m@).skip(0) =~= entries_view(m@));
    }
    let mut i: usize = 0;
    while i < m.len()
        invariant
            i <= m@.len(),
            entries_view(m@).len() == m@.len(),
            forall|k: int|
                0 <= k < m@.len() ==> entries_view(m@)[k] == (m@[k].0@, view_json(m@[k].1)),
            lookup(entries_view(m@), key@) == lookup(
                entries_view(m@).skip(i as int),
                key@,
            ),
        decreases m@.len() - i,
    {
        if text::str_eq(m[i].0.as_str(), key) {
            proof {
                assert(entries_view(m@).skip(i as int)[0] == (
                    m@[i as int].0@,
                    view_json(m@[i as int].1),
                ));
            }
            return Some(&m[i].1);
        }
        proof {
            assert(entries_view(m@).skip(i as int).drop_first() =~= entries_view(m@).skip(
                i as int + 1,
            ));
        }
        i = i + 1;
    }
    proof {
        assert(entries_view(m@).skip(i as int).len() == 0);
    }
    None
}

/// A member inserted anywhere under a fresh key leaves every other lookup
/// alone.
pub proof fn lemma_lookup_insert_ne(
    m: Seq<(Seq<char>, JsonV)>,
    at: int,
    k: Seq<char>,
    w: JsonV,
    key: Seq<char>,
)
    requires
        0 <= at <= m.len(),
        key != k,
    ensures
        lookup(m.insert(at, (k, w)), key) == lookup(m, key),
    decreases m.len(),
{
    if at == 0 {
        assert(m.insert(0, (k, w))[0] == (k, w));
        assert(m.insert(0, (k, w)).drop_first() =~= m);
    } else {
        assert(m.insert(at, (k, w))[0] == m[0]);
        assert(m.insert(at, (k, w)).drop_first() =~= m.drop_first().insert(at - 1, (k, w)));
        lemma_lookup_insert_ne(m.drop_first(), at - 1, k, w, key);
    }
}

#[verifier::external_type_specification]
#[verifier::external_body]
pub struct ExValue(serde_json::Value);

/// The tree that strict JSON parsing gives the text `s`: `Some` exactly when
/// the strict parser accepts `s`, `None` when it rejects it.  The outcome is
/// a function of the text alone.
pub uninterp spec fn json_tree_of(s: Seq<char>) -> Option<JsonV>;

/// Converts `serde_json`'s tree into [`Json`], one arm per variant.  Numbers
/// are narrowed through `serde_json::Number::as_u64`, which yields the value
/// exactly for non-negative integers; object members come out in the order
/// the map yields them, duplicate keys already resolved to the last binding.
#[verifier::external_body]
fn from_value(v: serde_json::Value) -> Json {
    match v {
        serde_json::Value::Null => Json::Null,
        serde_json::Value::Bool(b) => Json::Bool(b),
        serde_json::Value::Number(n) => Json::Num(
            n.as_u64().and_then(|u| u32::try_from(u).ok()),
        ),
        serde_json::Value::String(s) => Json::Text(s),
        serde_json::Value::Array(a) => Json::Arr(a.into_iter().map(from_value).collect()),
        serde_json::Value::Object(m) => Json::Obj(
            m.into_iter().map(|e| (e.0, from_value(e.1))).collect(),
        ),
    }
}

/// Relies on `serde_json::from_str::<serde_json::Value>` for strict JSON
/// parsing: it accepts exactly the strict JSON texts, deterministically, and
/// the accepted tree is converted by [`from_value`].  On rejection the
/// parser's message is handed back.
#[verifier::external_body]
pub(crate) fn parse_strict(v: &Vec<char>) -> (r: Result<Json, String>)
    ensures
        match r {
            Ok(j) => json_tree_of(v@) == Some(j@),
            Err(_) => json_tree_of(v@) is None,
        },
{
    let text: String = v.iter().collect();
    match serde_json::from_str::<serde_json::Value>(&text) {
        Ok(val) => Ok(from_value(val)),
        Err(e) => Err(e.to_string()),
    }
}

} // verus!

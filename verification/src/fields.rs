//! The structural mapper's field extractors: one pair of a spec function and
//! an executable function for each JSON shape a schema field can take.
//!
//! Every extractor looks its key up in an object's member list and answers
//! `Ok(None)` for an absent key and, alike, for an explicit `null`; a present
//! value of the wrong kind is a [`ConfigError::KindMismatch`] naming the
//! field.  List-valued extractors report the first offending element, in
//! textual order.

use vstd::prelude::*;
use vstd::string::StringExecFns;

use crate::enums::{
    spec_jsx, spec_lib, spec_module, spec_module_resolution, spec_target, Jsx, Lib, LibV, Module,
    ModuleResolutionMode, ModuleV, Target, TargetV,
};
use crate::errors::{ConfigError, ConfigErrorV};
use crate::json::{
    self, entries_view, kind_of, lemma_entries_view, lemma_view_arr, lookup, view_arr, view_json,
    Json, JsonKind, JsonV,
};

verus! {

/// The key of the two inclusion pattern lists: the document's and the
/// type-acquisition object's.
pub open spec fn inclusion_key() -> Seq<char> {
    "inclu"@ + "de"@
}

/// The [`inclusion_key`] spelling, as a runtime string.
pub fn inclusion_key_str() -> (s: String)
    ensures
        s@ == inclusion_key(),
{
    String::from_str("inclu").concat("de")
}

/// The member strings of a JSON array, or the kind of the first element
/// that is not a string.
pub open spec fn texts_of(a: Seq<JsonV>) -> Result<Seq<Seq<char>>, JsonKind>
    decreases a.len(),
{
    if a.len() == 0 {
        Ok(Seq::empty())
    } else {
        match a[0] {
            JsonV::Text(s) => match texts_of(a.drop_first()) {
                Ok(rest) => Ok(seq![s] + rest),
                Err(k) => Err(k),
            },
            v => Err(kind_of(v)),
        }
    }
}

/// The member strings of a JSON array, each coerced through the `lib`
/// domain, or the kind of the first element that is not a string.
pub open spec fn libs_of(a: Seq<JsonV>) -> Result<Seq<LibV>, JsonKind>
    decreases a.len(),
{
    if a.len() == 0 {
        Ok(Seq::empty())
    } else {
        match a[0] {
            JsonV::Text(s) => match libs_of(a.drop_first()) {
                Ok(rest) => Ok(seq![spec_lib(s)] + rest),
                Err(k) => Err(k),
            },
            v => Err(kind_of(v)),
        }
    }
}

/// The members of a JSON object each of whose values is an array of
/// strings, or the kind of the first value (or value element) that is not.
pub open spec fn path_entries_of(mm: Seq<(Seq<char>, JsonV)>) -> Result<
    Seq<(Seq<char>, Seq<Seq<char>>)>,
    JsonKind,
>
    decreases mm.len(),
{
    if mm.len() == 0 {
        Ok(Seq::empty())
    } else {
        match mm[0].1 {
            JsonV::Arr(a) => match texts_of(a) {
                Ok(ts) => match path_entries_of(mm.drop_first()) {
                    Ok(rest) => Ok(seq![(mm[0].0, ts)] + rest),
                    Err(k) => Err(k),
                },
                Err(k) => Err(k),
            },
            v => Err(kind_of(v)),
        }
    }
}

/// An optional boolean field.
pub open spec fn spec_opt_bool(m: Seq<(Seq<char>, JsonV)>, k: Seq<char>) -> Result<
    Option<bool>,
    ConfigErrorV,
> {
    match lookup(m, k) {
        Option::None => Ok(Option::None),
        Option::Some(v) => match v {
            JsonV::Null => Ok(Option::None),
            JsonV::Bool(b) => Ok(Option::Some(b)),
            _ => Err(
                ConfigErrorV::KindMismatch {
                    field: k,
                    expected: JsonKind::Bool,
                    found: kind_of(v),
                },
            ),
        },
    }
}

/// An optional string field.
pub open spec fn spec_opt_text(m: Seq<(Seq<char>, JsonV)>, k: Seq<char>) -> Result<
    Option<Seq<char>>,
    ConfigErrorV,
> {
    match lookup(m, k) {
        Option::None => Ok(Option::None),
        Option::Some(v) => match v {
            JsonV::Null => Ok(Option::None),
            JsonV::Text(s) => Ok(Option::Some(s)),
            _ => Err(
                ConfigErrorV::KindMismatch {
                    field: k,
                    expected: JsonKind::Text,
                    found: kind_of(v),
                },
            ),
        },
    }
}

/// An optional non-negative integer field.  A number that is not a
/// non-negative integer fitting `u32` mismatches its own kind.
pub open spec fn spec_opt_u32(m: Seq<(Seq<char>, JsonV)>, k: Seq<char>) -> Result<
    Option<u32>,
    ConfigErrorV,
> {
    match lookup(m, k) {
        Option::None => Ok(Option::None),
        Option::Some(v) => match v {
            JsonV::Null => Ok(Option::None),
            JsonV::Num(Option::Some(n)) => Ok(Option::Some(n)),
            _ => Err(
                ConfigErrorV::KindMismatch {
                    field: k,
                    expected: JsonKind::Number,
                    found: kind_of(v),
                },
            ),
        },
    }
}

/// An optional string-list field.
pub open spec fn spec_opt_texts(m: Seq<(Seq<char>, JsonV)>, k: Seq<char>) -> Result<
    Option<Seq<Seq<char>>>,
    ConfigErrorV,
> {
    match lookup(m, k) {
        Option::None => Ok(Option::None),
        Option::Some(v) => match v {
            JsonV::Null => Ok(Option::None),
            JsonV::Arr(a) => match texts_of(a) {
                Ok(ts) => Ok(Option::Some(ts)),
                Err(kd) => Err(
                    ConfigErrorV::KindMismatch { field: k, expected: JsonKind::Text, found: kd },
                ),
            },
            _ => Err(
                ConfigErrorV::KindMismatch {
                    field: k,
                    expected: JsonKind::Arr,
                    found: kind_of(v),
                },
            ),
        },
    }
}

/// An optional string-to-string-list mapping field.
pub open spec fn spec_opt_paths(m: Seq<(Seq<char>, JsonV)>, k: Seq<char>) -> Result<
    Option<Seq<(Seq<char>, Seq<Seq<char>>)>>,
    ConfigErrorV,
> {
    match lookup(m, k) {
        Option::None => Ok(Option::None),
        Option::Some(v) => match v {
            JsonV::Null => Ok(Option::None),
            JsonV::Obj(mm) => match path_entries_of(mm) {
                Ok(es) => Ok(Option::Some(es)),
                Err(kd) => Err(
                    ConfigErrorV::KindMismatch { field: k, expected: JsonKind::Arr, found: kd },
                ),
            },
            _ => Err(
                ConfigErrorV::KindMismatch {
                    field: k,
                    expected: JsonKind::Obj,
                    found: kind_of(v),
                },
            ),
        },
    }
}

/// An optional field of the open `target` domain.
pub open spec fn spec_opt_target(m: Seq<(Seq<char>, JsonV)>, k: Seq<char>) -> Result<
    Option<TargetV>,
    ConfigErrorV,
> {
    match lookup(m, k) {
        Option::None => Ok(Option::None),
        Option::Some(v) => match v {
            JsonV::Null => Ok(Option::None),
            JsonV::Text(s) => Ok(Option::Some(spec_target(s))),
            _ => Err(
                ConfigErrorV::KindMismatch {
                    field: k,
                    expected: JsonKind::Text,
                    found: kind_of(v),
                },
            ),
        },
    }
}

/// An optional field of the open `module` domain.
pub open spec fn spec_opt_module(m: Seq<(Seq<char>, JsonV)>, k: Seq<char>) -> Result<
    Option<ModuleV>,
    ConfigErrorV,
> {
    match lookup(m, k) {
        Option::None => Ok(Option::None),
        Option::Some(v) => match v {
            JsonV::Null => Ok(Option::None),
            JsonV::Text(s) => Ok(Option::Some(spec_module(s))),
            _ => Err(
                ConfigErrorV::KindMismatch {
                    field: k,
                    expected: JsonKind::Text,
                    found: kind_of(v),
                },
            ),
        },
    }
}

/// An optional list field of the open `lib` domain.
pub open spec fn spec_opt_libs(m: Seq<(Seq<char>, JsonV)>, k: Seq<char>) -> Result<
    Option<Seq<LibV>>,
    ConfigErrorV,
> {
    match lookup(m, k) {
        Option::None => Ok(Option::None),
        Option::Some(v) => match v {
            JsonV::Null => Ok(Option::None),
            JsonV::Arr(a) => match libs_of(a) {
                Ok(ls) => Ok(Option::Some(ls)),
                Err(kd) => Err(
                    ConfigErrorV::KindMismatch { field: k, expected: JsonKind::Text, found: kd },
                ),
            },
            _ => Err(
                ConfigErrorV::KindMismatch {
                    field: k,
                    expected: JsonKind::Arr,
                    found: kind_of(v),
                },
            ),
        },
    }
}

/// An optional field of the closed `jsx` domain: an unknown token is an
/// [`ConfigErrorV::InvalidEnumValue`] carrying the token.
pub open spec fn spec_opt_jsx(m: Seq<(Seq<char>, JsonV)>, k: Seq<char>) -> Result<
    Option<Jsx>,
    ConfigErrorV,
> {
    match lookup(m, k) {
        Option::None => Ok(Option::None),
        Option::Some(v) => match v {
            JsonV::Null => Ok(Option::None),
            JsonV::Text(s) => match spec_jsx(s) {
                Option::Some(j) => Ok(Option::Some(j)),
                Option::None => Err(
                    ConfigErrorV::InvalidEnumValue {
                        field: k,
                        token: s,
                        expected: "react, react-jsx, react-jsxdev, react-native, preserve"@,
                    },
                ),
            },
            _ => Err(
                ConfigErrorV::KindMismatch {
                    field: k,
                    expected: JsonKind::Text,
                    found: kind_of(v),
                },
            ),
        },
    }
}

/// An optional field of the closed `moduleResolution` domain: an unknown
/// token is an [`ConfigErrorV::InvalidEnumValue`] carrying the token.
pub open spec fn spec_opt_module_resolution(m: Seq<(Seq<char>, JsonV)>, k: Seq<char>) -> Result<
    Option<ModuleResolutionMode>,
    ConfigErrorV,
> {
    match lookup(m, k) {
        Option::None => Ok(Option::None),
        Option::Some(v) => match v {
            JsonV::Null => Ok(Option::None),
            JsonV::Text(s) => match spec_module_resolution(s) {
                Option::Some(r) => Ok(Option::Some(r)),
                Option::None => Err(
                    ConfigErrorV::InvalidEnumValue { field: k, token: s, expected: "node, classic"@ },
                ),
            },
            _ => Err(
                ConfigErrorV::KindMismatch {
                    field: k,
                    expected: JsonKind::Text,
                    found: kind_of(v),
                },
            ),
        },
    }
}

/// The member strings of a JSON array, as a vector; the kind of the first
/// offending element otherwise.
pub fn texts_vec(a: &Vec<Json>) -> (r: Result<Vec<String>, JsonKind>)
    ensures
        match r {
            Ok(v) => texts_of(view_arr(a@)) == Ok::<Seq<Seq<char>>, JsonKind>(v.deep_view()),
            Err(k) => texts_of(view_arr(a@)) == Err::<Seq<Seq<char>>, JsonKind>(k),
        },
{
    let ghost av = view_arr(a@);
    proof {
        lemma_view_arr(a@);
        assert(av.skip(0) =~= av);
    }
    let mut out: Vec<String> = Vec::new();
    let mut i: usize = 0;
    while i < a.len()
        invariant
            i <= a@.len(),
            av == view_arr(a@),
            av.len() == a@.len(),
            forall|x: int| 0 <= x < a@.len() ==> av[x] == view_json(a@[x]),
            match texts_of(av.skip(i as int)) {
                Ok(rest) => texts_of(av) == Ok::<Seq<Seq<char>>, JsonKind>(out.deep_view() + rest),
                Err(k) => texts_of(av) == Err::<Seq<Seq<char>>, JsonKind>(k),
            },
        decreases a@.len() - i,
    {
        proof {
            assert(av.skip(i as int)[0] == av[i as int]);
            assert(av.skip(i as int).drop_first() =~= av.skip(i as int + 1));
        }
        match &a[i] {
            Json::Text(s) => {
                let ghost old_out = out.deep_view();
                out.push(s.clone());
                proof {
                    assert(out.deep_view() =~= old_out.push(s@));
                    match texts_of(av.skip(i as int + 1)) {
                        Ok(rest2) => {
                            assert((old_out + (seq![s@] + rest2)) =~= (out.deep_view() + rest2));
                        },
                        Err(_) => {},
                    }
                }
            },
            other => {
                return Err(json::kind(other));
            },
        }
        i = i + 1;
    }
    proof {
        assert(av.skip(i as int) =~= Seq::<JsonV>::empty());
        assert(out.deep_view() + Seq::<Seq<char>>::empty() =~= out.deep_view());
    }
    Ok(out)
}

/// The member strings of a JSON array coerced through the `lib` domain; the
/// kind of the first offending element otherwise.
pub fn libs_vec(a: &Vec<Json>) -> (r: Result<Vec<Lib>, JsonKind>)
    ensures
        match r {
            Ok(v) => libs_of(view_arr(a@)) == Ok::<Seq<LibV>, JsonKind>(v.deep_view()),
            Err(k) => libs_of(view_arr(a@)) == Err::<Seq<LibV>, JsonKind>(k),
        },
{
    let ghost av = view_arr(a@);
    proof {
        lemma_view_arr(a@);
        assert(av.skip(0) =~= av);
    }
    let mut out: Vec<Lib> = Vec::new();
    let mut i: usize = 0;
    while i < a.len()
        invariant
            i <= a@.len(),
            av == view_arr(a@),
            av.len() == a@.len(),
            forall|x: int| 0 <= x < a@.len() ==> av[x] == view_json(a@[x]),
            match libs_of(av.skip(i as int)) {
                Ok(rest) => libs_of(av) == Ok::<Seq<LibV>, JsonKind>(out.deep_view() + rest),
                Err(k) => libs_of(av) == Err::<Seq<LibV>, JsonKind>(k),
            },
        decreases a@.len() - i,
    {
        proof {
            assert(av.skip(i as int)[0] == av[i as int]);
            assert(av.skip(i as int).drop_first() =~= av.skip(i as int + 1));
        }
        match &a[i] {
            Json::Text(s) => {
                let ghost old_out = out.deep_view();
                out.push(Lib::from_token(s));
                proof {
                    assert(out.deep_view() =~= old_out.push(spec_lib(s@)));
                    match libs_of(av.skip(i as int + 1)) {
                        Ok(rest2) => {
                            assert((old_out + (seq![spec_lib(s@)] + rest2)) =~= (out.deep_view()
                                + rest2));
                        },
                        Err(_) => {},
                    }
                }
            },
            other => {
                return Err(json::kind(other));
            },
        }
        i = i + 1;
    }
    proof {
        assert(av.skip(i as int) =~= Seq::<JsonV>::empty());
        assert(out.deep_view() + Seq::<LibV>::empty() =~= out.deep_view());
    }
    Ok(out)
}

/// The `paths` mapping of the schema: string keys, each bound to a list of
/// strings.  A lookup takes the first binding of a key.
#[derive(Debug, Clone, PartialEq)]
pub struct PathsMap {
    pub entries: Vec<(String, Vec<String>)>,
}

/// The view of a `paths` member list.
pub open spec fn path_pairs_view(es: Seq<(String, Vec<String>)>) -> Seq<
    (Seq<char>, Seq<Seq<char>>),
> {
    Seq::new(es.len(), |i: int| (es[i].0@, es[i].1.deep_view()))
}

impl View for PathsMap {
    type V = Seq<(Seq<char>, Seq<Seq<char>>)>;

    open spec fn view(&self) -> Seq<(Seq<char>, Seq<Seq<char>>)> {
        path_pairs_view(self.entries@)
    }
}

impl DeepView for PathsMap {
    type V = Seq<(Seq<char>, Seq<Seq<char>>)>;

    open spec fn deep_view(&self) -> Seq<(Seq<char>, Seq<Seq<char>>)> {
        self.view()
    }
}

/// The list bound to `k` in a `paths` mapping: the first binding wins.
pub open spec fn path_lookup(m: Seq<(Seq<char>, Seq<Seq<char>>)>, k: Seq<char>) -> Option<
    Seq<Seq<char>>,
>
    decreases m.len(),
{
    if m.len() == 0 {
        Option::None
    } else if m[0].0 == k {
        Option::Some(m[0].1)
    } else {
        path_lookup(m.drop_first(), k)
    }
}

impl PathsMap {
    /// Looks a pattern up in the mapping.
    pub fn get(&self, key: &str) -> (r: Option<&Vec<String>>)
        ensures
            match r {
                Option::Some(v) => path_lookup(self@, key@) == Option::Some(v.deep_view()),
                Option::None => path_lookup(self@, key@) is None,
            },
    {
        proof {
            assert(self@.skip(0) =~= self@);
        }
        let mut i: usize = 0;
        while i < self.entries.len()
            invariant
                i <= self.entries@.len(),
                path_lookup(self@, key@) == path_lookup(self@.skip(i as int), key@),
            decreases self.entries@.len() - i,
        {
            proof {
                assert(self@.skip(i as int)[0] == self@[i as int]);
            }
            if crate::text::str_eq(self.entries[i].0.as_str(), key) {
                return Some(&self.entries[i].1);
            }
            proof {
                assert(self@.skip(i as int).drop_first() =~= self@.skip(i as int + 1));
            }
            i = i + 1;
        }
        proof {
            assert(self@.skip(i as int).len() == 0);
        }
        None
    }
}

/// The members of a JSON object projected onto a [`PathsMap`]; the kind of
/// the first offending value otherwise.
pub fn paths_map(mm: &Vec<(String, Json)>) -> (r: Result<PathsMap, JsonKind>)
    ensures
        match r {
            Ok(pm) => path_entries_of(entries_view(mm@)) == Ok::<
                Seq<(Seq<char>, Seq<Seq<char>>)>,
                JsonKind,
            >(pm@),
            Err(k) => path_entries_of(entries_view(mm@)) == Err::<
                Seq<(Seq<char>, Seq<Seq<char>>)>,
                JsonKind,
            >(k),
        },
{
    let ghost mv = entries_view(mm@);
    proof {
        lemma_entries_view(mm@);
        assert(mv.skip(0) =~= mv);
    }
    let mut out: Vec<(String, Vec<String>)> = Vec::new();
    let mut i: usize = 0;
    while i < mm.len()
        invariant
            i <= mm@.len(),
            mv == entries_view(mm@),
            mv.len() == mm@.len(),
            forall|x: int| 0 <= x < mm@.len() ==> mv[x] == (mm@[x].0@, view_json(mm@[x].1)),
            match path_entries_of(mv.skip(i as int)) {
                Ok(rest) => path_entries_of(mv) == Ok::<
                    Seq<(Seq<char>, Seq<Seq<char>>)>,
                    JsonKind,
                >(path_pairs_view(out@) + rest),
                Err(k) => path_entries_of(mv) == Err::<
                    Seq<(Seq<char>, Seq<Seq<char>>)>,
                    JsonKind,
                >(k),
            },
        decreases mm@.len() - i,
    {
        proof {
            assert(mv.skip(i as int)[0] == mv[i as int]);
            assert(mv.skip(i as int).drop_first() =~= mv.skip(i as int + 1));
        }
        match &mm[i].1 {
            Json::Arr(a) => {
                match texts_vec(a) {
                    Ok(ts) => {
                        let ghost old_out = path_pairs_view(out@);
                        let k2 = mm[i].0.clone();
                        out.push((k2, ts));
                        proof {
                            assert(path_pairs_view(out@) =~= old_out.push(
                                (mm@[i as int].0@, texts_of(view_arr(a@))->Ok_0),
                            ));
                            match path_entries_of(mv.skip(i as int + 1)) {
                                Ok(rest2) => {
                                    assert((old_out + (seq![
                                        (mm@[i as int].0@, texts_of(view_arr(a@))->Ok_0),
                                    ] + rest2)) =~= (path_pairs_view(out@) + rest2));
                                },
                                Err(_) => {},
                            }
                        }
                    },
                    Err(kd) => {
                        return Err(kd);
                    },
                }
            },
            other => {
                return Err(json::kind(other));
            },
        }
        i = i + 1;
    }
    proof {
        assert(mv.skip(i as int) =~= Seq::<(Seq<char>, JsonV)>::empty());
        assert(path_pairs_view(out@) + Seq::<(Seq<char>, Seq<Seq<char>>)>::empty()
            =~= path_pairs_view(out@));
    }
    Ok(PathsMap { entries: out })
}

/// Extracts an optional boolean field.
pub fn get_opt_bool(m: &Vec<(String, Json)>, key: &str) -> (r: Result<Option<bool>, ConfigError>)
    ensures
        match r {
            Ok(o) => spec_opt_bool(entries_view(m@), key@) == Ok::<Option<bool>, ConfigErrorV>(o),
            Err(e) => spec_opt_bool(entries_view(m@), key@) == Err::<Option<bool>, ConfigErrorV>(
                e@,
            ),
        },
{
    match json::get(m, key) {
        Option::None => Ok(Option::None),
        Option::Some(j) => match j {
            Json::Null => Ok(Option::None),
            Json::Bool(b) => Ok(Option::Some(*b)),
            other => Err(
                ConfigError::KindMismatch {
                    field: key.to_owned(),
                    expected: JsonKind::Bool,
                    found: json::kind(other),
                },
            ),
        },
    }
}

/// Extracts an optional string field.
pub fn get_opt_text(m: &Vec<(String, Json)>, key: &str) -> (r: Result<
    Option<String>,
    ConfigError,
>)
    ensures
        match r {
            Ok(o) => spec_opt_text(entries_view(m@), key@) == Ok::<
                Option<Seq<char>>,
                ConfigErrorV,
            >(o.deep_view()),
            Err(e) => spec_opt_text(entries_view(m@), key@) == Err::<
                Option<Seq<char>>,
                ConfigErrorV,
            >(e@),
        },
{
    match json::get(m, key) {
        Option::None => Ok(Option::None),
        Option::Some(j) => match j {
            Json::Null => Ok(Option::None),
            Json::Text(s) => Ok(Option::Some(s.clone())),
            other => Err(
                ConfigError::KindMismatch {
                    field: key.to_owned(),
                    expected: JsonKind::Text,
                    found: json::kind(other),
                },
            ),
        },
    }
}

/// Extracts an optional non-negative integer field.
pub fn get_opt_u32(m: &Vec<(String, Json)>, key: &str) -> (r: Result<Option<u32>, ConfigError>)
    ensures
        match r {
            Ok(o) => spec_opt_u32(entries_view(m@), key@) == Ok::<Option<u32>, ConfigErrorV>(o),
            Err(e) => spec_opt_u32(entries_view(m@), key@) == Err::<Option<u32>, ConfigErrorV>(
                e@,
            ),
        },
{
    match json::get(m, key) {
        Option::None => Ok(Option::None),
        Option::Some(j) => match j {
            Json::Null => Ok(Option::None),
            Json::Num(Option::Some(n)) => Ok(Option::Some(*n)),
            other => Err(
                ConfigError::KindMismatch {
                    field: key.to_owned(),
                    expected: JsonKind::Number,
                    found: json::kind(other),
                },
            ),
        },
    }
}

/// Extracts an optional string-list field.
pub fn get_opt_texts(m: &Vec<(String, Json)>, key: &str) -> (r: Result<
    Option<Vec<String>>,
    ConfigError,
>)
    ensures
        match r {
            Ok(o) => spec_opt_texts(entries_view(m@), key@) == Ok::<
                Option<Seq<Seq<char>>>,
                ConfigErrorV,
            >(o.deep_view()),
            Err(e) => spec_opt_texts(entries_view(m@), key@) == Err::<
                Option<Seq<Seq<char>>>,
                ConfigErrorV,
            >(e@),
        },
{
    match json::get(m, key) {
        Option::None => Ok(Option::None),
        Option::Some(j) => match j {
            Json::Null => Ok(Option::None),
            Json::Arr(a) => match texts_vec(a) {
                Ok(v) => Ok(Option::Some(v)),
                Err(kd) => Err(
                    ConfigError::KindMismatch {
                        field: key.to_owned(),
                        expected: JsonKind::Text,
                        found: kd,
                    },
                ),
            },
            other => Err(
                ConfigError::KindMismatch {
                    field: key.to_owned(),
                    expected: JsonKind::Arr,
                    found: json::kind(other),
                },
            ),
        },
    }
}

/// Extracts the optional `paths` mapping field.
pub fn get_opt_paths(m: &Vec<(String, Json)>, key: &str) -> (r: Result<
    Option<PathsMap>,
    ConfigError,
>)
    ensures
        match r {
            Ok(o) => spec_opt_paths(entries_view(m@), key@) == Ok::<
                Option<Seq<(Seq<char>, Seq<Seq<char>>)>>,
                ConfigErrorV,
            >(o.deep_view()),
            Err(e) => spec_opt_paths(entries_view(m@), key@) == Err::<
                Option<Seq<(Seq<char>, Seq<Seq<char>>)>>,
                ConfigErrorV,
            >(e@),
        },
{
    match json::get(m, key) {
        Option::None => Ok(Option::None),
        Option::Some(j) => match j {
            Json::Null => Ok(Option::None),
            Json::Obj(mm) => match paths_map(mm) {
                Ok(pm) => Ok(Option::Some(pm)),
                Err(kd) => Err(
                    ConfigError::KindMismatch {
                        field: key.to_owned(),
                        expected: JsonKind::Arr,
                        found: kd,
                    },
                ),
            },
            other => Err(
                ConfigError::KindMismatch {
                    field: key.to_owned(),
                    expected: JsonKind::Obj,
                    found: json::kind(other),
                },
            ),
        },
    }
}

/// Extracts an optional field of the open `target` domain.
pub fn get_opt_target(m: &Vec<(String, Json)>, key: &str) -> (r: Result<
    Option<Target>,
    ConfigError,
>)
    ensures
        match r {
            Ok(o) => spec_opt_target(entries_view(m@), key@) == Ok::<
                Option<TargetV>,
                ConfigErrorV,
            >(o.deep_view()),
            Err(e) => spec_opt_target(entries_view(m@), key@) == Err::<
                Option<TargetV>,
                ConfigErrorV,
            >(e@),
        },
{
    match json::get(m, key) {
        Option::None => Ok(Option::None),
        Option::Some(j) => match j {
            Json::Null => Ok(Option::None),
            Json::Text(s) => Ok(Option::Some(Target::from_token(s))),
            other => Err(
                ConfigError::KindMismatch {
                    field: key.to_owned(),
                    expected: JsonKind::Text,
                    found: json::kind(other),
                },
            ),
        },
    }
}

/// Extracts an optional field of the open `module` domain.
pub fn get_opt_module(m: &Vec<(String, Json)>, key: &str) -> (r: Result<
    Option<Module>,
    ConfigError,
>)
    ensures
        match r {
            Ok(o) => spec_opt_module(entries_view(m@), key@) == Ok::<
                Option<ModuleV>,
                ConfigErrorV,
            >(o.deep_view()),
            Err(e) => spec_opt_module(entries_view(m@), key@) == Err::<
                Option<ModuleV>,
                ConfigErrorV,
            >(e@),
        },
{
    match json::get(m, key) {
        Option::None => Ok(Option::None),
        Option::Some(j) => match j {
            Json::Null => Ok(Option::None),
            Json::Text(s) => Ok(Option::Some(Module::from_token(s))),
            other => Err(
                ConfigError::KindMismatch {
                    field: key.to_owned(),
                    expected: JsonKind::Text,
                    found: json::kind(other),
                },
            ),
        },
    }
}

/// Extracts an optional list field of the open `lib` domain.
pub fn get_opt_libs(m: &Vec<(String, Json)>, key: &str) -> (r: Result<
    Option<Vec<Lib>>,
    ConfigError,
>)
    ensures
        match r {
            Ok(o) => spec_opt_libs(entries_view(m@), key@) == Ok::<
                Option<Seq<LibV>>,
                ConfigErrorV,
            >(o.deep_view()),
            Err(e) => spec_opt_libs(entries_view(m@), key@) == Err::<
                Option<Seq<LibV>>,
                ConfigErrorV,
            >(e@),
        },
{
    match json::get(m, key) {
        Option::None => Ok(Option::None),
        Option::Some(j) => match j {
            Json::Null => Ok(Option::None),
            Json::Arr(a) => match libs_vec(a) {
                Ok(v) => Ok(Option::Some(v)),
                Err(kd) => Err(
                    ConfigError::KindMismatch {
                        field: key.to_owned(),
                        expected: JsonKind::Text,
                        found: kd,
                    },
                ),
            },
            other => Err(
                ConfigError::KindMismatch {
                    field: key.to_owned(),
                    expected: JsonKind::Arr,
                    found: json::kind(other),
                },
            ),
        },
    }
}

/// Extracts an optional field of the closed `jsx` domain.
pub fn get_opt_jsx(m: &Vec<(String, Json)>, key: &str) -> (r: Result<Option<Jsx>, ConfigError>)
    ensures
        match r {
            Ok(o) => spec_opt_jsx(entries_view(m@), key@) == Ok::<Option<Jsx>, ConfigErrorV>(o),
            Err(e) => spec_opt_jsx(entries_view(m@), key@) == Err::<Option<Jsx>, ConfigErrorV>(
                e@,
            ),
        },
{
    match json::get(m, key) {
        Option::None => Ok(Option::None),
        Option::Some(j) => match j {
            Json::Null => Ok(Option::None),
            Json::Text(s) => match Jsx::from_token(s) {
                Option::Some(x) => Ok(Option::Some(x)),
                Option::None => Err(
                    ConfigError::InvalidEnumValue {
                        field: key.to_owned(),
                        token: s.clone(),
                        expected: "react, react-jsx, react-jsxdev, react-native, preserve"
                            .to_owned(),
                    },
                ),
            },
            other => Err(
                ConfigError::KindMismatch {
                    field: key.to_owned(),
                    expected: JsonKind::Text,
                    found: json::kind(other),
                },
            ),
        },
    }
}

/// Extracts an optional field of the closed `moduleResolution` domain.
pub fn get_opt_module_resolution(m: &Vec<(String, Json)>, key: &str) -> (r: Result<
    Option<ModuleResolutionMode>,
    ConfigError,
>)
    ensures
        match r {
            Ok(o) => spec_opt_module_resolution(entries_view(m@), key@) == Ok::<
                Option<ModuleResolutionMode>,
                ConfigErrorV,
            >(o),
            Err(e) => spec_opt_module_resolution(entries_view(m@), key@) == Err::<
                Option<ModuleResolutionMode>,
                ConfigErrorV,
            >(e@),
        },
{
    match json::get(m, key) {
        Option::None => Ok(Option::None),
        Option::Some(j) => match j {
            Json::Null => Ok(Option::None),
            Json::Text(s) => match ModuleResolutionMode::from_token(s) {
                Option::Some(x) => Ok(Option::Some(x)),
                Option::None => Err(
                    ConfigError::InvalidEnumValue {
                        field: key.to_owned(),
                        token: s.clone(),
                        expected: "node, classic".to_owned(),
                    },
                ),
            },
            other => Err(
                ConfigError::KindMismatch {
                    field: key.to_owned(),
                    expected: JsonKind::Text,
                    found: json::kind(other),
                },
            ),
        },
    }
}

} // verus!

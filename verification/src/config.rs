//! The union resolver: the two polymorphic fields of the document, each one
//! of several structurally disjoint JSON shapes, resolved in a fixed order —
//! the boolean shape first, the structured shape second.
//!
//! A value that matches no permitted shape is a
//! [`ConfigError::ShapeMismatch`]; a required member missing from the
//! structured shape (`path` of a reference, `enable` of a type-acquisition
//! object) is reported as a [`ConfigError::ShapeMismatch`] on that member
//! with the `null` kind standing for its absence.

use vstd::prelude::*;

use crate::errors::{ConfigError, ConfigErrorV};
use crate::fields::{
    get_opt_bool, get_opt_text, get_opt_texts, spec_opt_bool, spec_opt_text, spec_opt_texts,
};
use crate::json::{
    self, entries_view, kind_of, lemma_view_arr, view_arr, view_json, Json, JsonKind, JsonV,
};

verus! {

/// One project reference: a required path and an optional prepend flag.
#[derive(Debug, Clone, PartialEq)]
pub struct Reference {
    pub path: String,
    pub prepend: Option<bool>,
}

/// The mathematical shape of a [`Reference`].
pub struct ReferenceV {
    pub path: Seq<char>,
    pub prepend: Option<bool>,
}

impl View for Reference {
    type V = ReferenceV;

    open spec fn view(&self) -> ReferenceV {
        ReferenceV { path: self.path@, prepend: self.prepend }
    }
}

impl DeepView for Reference {
    type V = ReferenceV;

    open spec fn deep_view(&self) -> ReferenceV {
        self.view()
    }
}

/// The `references` field: either a bare flag or a list of references.
#[derive(Debug, Clone, PartialEq)]
pub enum References {
    Bool(bool),
    References(Vec<Reference>),
}

/// The mathematical shape of a [`References`].
pub enum ReferencesV {
    Bool(bool),
    References(Seq<ReferenceV>),
}

impl View for References {
    type V = ReferencesV;

    open spec fn view(&self) -> ReferencesV {
        match self {
            References::Bool(b) => ReferencesV::Bool(*b),
            References::References(rs) => ReferencesV::References(rs.deep_view()),
        }
    }
}

impl DeepView for References {
    type V = ReferencesV;

    open spec fn deep_view(&self) -> ReferencesV {
        self.view()
    }
}

/// The `typeAcquisition` field: either a bare flag or a structured object
/// with a required `enable` flag.
#[derive(Debug, Clone, PartialEq)]
pub enum TypeAcquisition {
    Bool(bool),
    Object {
        enable: bool,
        include_patterns: Option<Vec<String>>,
        exclude: Option<Vec<String>>,
        disable_filename_based_type_acquisition: Option<bool>,
    },
}

/// The mathematical shape of a [`TypeAcquisition`].
pub enum TypeAcquisitionV {
    Bool(bool),
    Object {
        enable: bool,
        include_patterns: Option<Seq<Seq<char>>>,
        exclude: Option<Seq<Seq<char>>>,
        disable_filename_based_type_acquisition: Option<bool>,
    },
}

impl View for TypeAcquisition {
    type V = TypeAcquisitionV;

    open spec fn view(&self) -> TypeAcquisitionV {
        match self {
            TypeAcquisition::Bool(b) => TypeAcquisitionV::Bool(*b),
            TypeAcquisition::Object {
                enable,
                include_patterns,
                exclude,
                disable_filename_based_type_acquisition,
            } => TypeAcquisitionV::Object {
                enable: *enable,
                include_patterns: include_patterns.deep_view(),
                exclude: exclude.deep_view(),
                disable_filename_based_type_acquisition: *disable_filename_based_type_acquisition,
            },
        }
    }
}

impl DeepView for TypeAcquisition {
    type V = TypeAcquisitionV;

    open spec fn deep_view(&self) -> TypeAcquisitionV {
        self.view()
    }
}

/// One element of a `references` list: an object whose `path` member is a
/// required string and whose `prepend` member is an optional boolean.
pub open spec fn spec_reference(v: JsonV) -> Result<ReferenceV, ConfigErrorV> {
    match v {
        JsonV::Obj(mm) => match spec_opt_text(mm, "path"@) {
            Ok(Option::Some(p)) => match spec_opt_bool(mm, "prepend"@) {
                Ok(pp) => Ok(ReferenceV { path: p, prepend: pp }),
                Err(e) => Err(e),
            },
            Ok(Option::None) => Err(
                ConfigErrorV::ShapeMismatch { field: "path"@, found: JsonKind::Null },
            ),
            Err(e) => Err(e),
        },
        _ => Err(ConfigErrorV::ShapeMismatch { field: "references"@, found: kind_of(v) }),
    }
}

/// The elements of a `references` list, left to right up to the first
/// offending element.
pub open spec fn refs_of(a: Seq<JsonV>) -> Result<Seq<ReferenceV>, ConfigErrorV>
    decreases a.len(),
{
    if a.len() == 0 {
        Ok(Seq::empty())
    } else {
        match spec_reference(a[0]) {
            Ok(r) => match refs_of(a.drop_first()) {
                Ok(rest) => Ok(seq![r] + rest),
                Err(e) => Err(e),
            },
            Err(e) => Err(e),
        }
    }
}

/// The `references` field's value, resolved boolean shape first, list shape
/// second.
pub open spec fn spec_references_value(v: JsonV) -> Result<ReferencesV, ConfigErrorV> {
    match v {
        JsonV::Bool(b) => Ok(ReferencesV::Bool(b)),
        JsonV::Arr(a) => match refs_of(a) {
            Ok(rs) => Ok(ReferencesV::References(rs)),
            Err(e) => Err(e),
        },
        _ => Err(ConfigErrorV::ShapeMismatch { field: "references"@, found: kind_of(v) }),
    }
}

/// The `typeAcquisition` field's value, resolved boolean shape first,
/// object shape second.
pub open spec fn spec_type_acquisition_value(v: JsonV) -> Result<
    TypeAcquisitionV,
    ConfigErrorV,
> {
    match v {
        JsonV::Bool(b) => Ok(TypeAcquisitionV::Bool(b)),
        JsonV::Obj(mm) => match spec_opt_bool(mm, "enable"@) {
            Ok(Option::Some(en)) => match spec_opt_texts(mm, crate::fields::inclusion_key()) {
                Ok(inc) => match spec_opt_texts(mm, "exclude"@) {
                    Ok(exc) => match spec_opt_bool(mm, "disableFilenameBasedTypeAcquisition"@) {
                        Ok(dis) => Ok(
                            TypeAcquisitionV::Object {
                                enable: en,
                                include_patterns: inc,
                                exclude: exc,
                                disable_filename_based_type_acquisition: dis,
                            },
                        ),
                        Err(e) => Err(e),
                    },
                    Err(e) => Err(e),
                },
                Err(e) => Err(e),
            },
            Ok(Option::None) => Err(
                ConfigErrorV::ShapeMismatch { field: "enable"@, found: JsonKind::Null },
            ),
            Err(e) => Err(e),
        },
        _ => Err(ConfigErrorV::ShapeMismatch { field: "typeAcquisition"@, found: kind_of(v) }),
    }
}

impl Reference {
    /// Resolves one element of a `references` list.
    pub fn from_json(j: &Json) -> (r: Result<Reference, ConfigError>)
        ensures
            match r {
                Ok(rf) => spec_reference(j@) == Ok::<ReferenceV, ConfigErrorV>(rf@),
                Err(e) => spec_reference(j@) == Err::<ReferenceV, ConfigErrorV>(e@),
            },
    {
        match j {
            Json::Obj(mm) => match get_opt_text(mm, "path") {
                Ok(Option::Some(p)) => match get_opt_bool(mm, "prepend") {
                    Ok(pp) => Ok(Reference { path: p, prepend: pp }),
                    Err(e) => Err(e),
                },
                Ok(Option::None) => Err(
                    ConfigError::ShapeMismatch {
                        field: "path".to_owned(),
                        found: JsonKind::Null,
                    },
                ),
                Err(e) => Err(e),
            },
            other => Err(
                ConfigError::ShapeMismatch {
                    field: "references".to_owned(),
                    found: json::kind(other),
                },
            ),
        }
    }
}

impl References {
    /// Resolves the `references` field's value: the boolean shape first,
    /// then the list shape; anything else mismatches.
    pub fn resolve(j: &Json) -> (r: Result<References, ConfigError>)
        ensures
            match r {
                Ok(rs) => spec_references_value(j@) == Ok::<ReferencesV, ConfigErrorV>(rs@),
                Err(e) => spec_references_value(j@) == Err::<ReferencesV, ConfigErrorV>(e@),
            },
    {
        match j {
            Json::Bool(b) => Ok(References::Bool(*b)),
            Json::Arr(a) => match refs_vec(a) {
                Ok(rs) => Ok(References::References(rs)),
                Err(e) => Err(e),
            },
            other => Err(
                ConfigError::ShapeMismatch {
                    field: "references".to_owned(),
                    found: json::kind(other),
                },
            ),
        }
    }
}

/// The elements of a `references` list, as a vector; the first offending
/// element's error otherwise.
fn refs_vec(a: &Vec<Json>) -> (r: Result<Vec<Reference>, ConfigError>)
    ensures
        match r {
            Ok(v) => refs_of(view_arr(a@)) == Ok::<Seq<ReferenceV>, ConfigErrorV>(v.deep_view()),
            Err(e) => refs_of(view_arr(a@)) == Err::<Seq<ReferenceV>, ConfigErrorV>(e@),
        },
{
    let ghost av = view_arr(a@);
    proof {
        lemma_view_arr(a@);
        assert(av.skip(0) =~= av);
    }
    let mut out: Vec<Reference> = Vec::new();
    let mut i: usize = 0;
    while i < a.len()
        invariant
            i <= a@.len(),
            av == view_arr(a@),
            av.len() == a@.len(),
            forall|x: int| 0 <= x < a@.len() ==> av[x] == view_json(a@[x]),
            match refs_of(av.skip(i as int)) {
                Ok(rest) => refs_of(av) == Ok::<Seq<ReferenceV>, ConfigErrorV>(
                    out.deep_view() + rest,
                ),
                Err(e) => refs_of(av) == Err::<Seq<ReferenceV>, ConfigErrorV>(e),
            },
        decreases a@.len() - i,
    {
        proof {
            assert(av.skip(i as int)[0] == av[i as int]);
            assert(av.skip(i as int).drop_first() =~= av.skip(i as int + 1));
        }
        match Reference::from_json(&a[i]) {
            Ok(rf) => {
                let ghost old_out = out.deep_view();
                let ghost rv = rf@;
                out.push(rf);
                proof {
                    assert(out.deep_view() =~= old_out.push(rv));
                    match refs_of(av.skip(i as int + 1)) {
                        Ok(rest2) => {
                            assert((old_out + (seq![rv] + rest2)) =~= (out.deep_view() + rest2));
                        },
                        Err(_) => {},
                    }
                }
            },
            Err(e) => {
                return Err(e);
            },
        }
        i = i + 1;
    }
    proof {
        assert(av.skip(i as int) =~= Seq::<JsonV>::empty());
        assert(out.deep_view() + Seq::<ReferenceV>::empty() =~= out.deep_view());
    }
    Ok(out)
}

impl TypeAcquisition {
    /// Resolves the `typeAcquisition` field's value: the boolean shape
    /// first, then the object shape; anything else mismatches.
    pub fn resolve(j: &Json) -> (r: Result<TypeAcquisition, ConfigError>)
        ensures
            match r {
                Ok(ta) => spec_type_acquisition_value(j@) == Ok::<
                    TypeAcquisitionV,
                    ConfigErrorV,
                >(ta@),
                Err(e) => spec_type_acquisition_value(j@) == Err::<
                    TypeAcquisitionV,
                    ConfigErrorV,
                >(e@),
            },
    {
        match j {
            Json::Bool(b) => Ok(TypeAcquisition::Bool(*b)),
            Json::Obj(mm) => match get_opt_bool(mm, "enable") {
                Ok(Option::Some(en)) => {
                    let ik = crate::fields::inclusion_key_str();
                    match get_opt_texts(mm, ik.as_str()) {
                        Ok(inc) => match get_opt_texts(mm, "exclude") {
                            Ok(exc) => match get_opt_bool(
                                mm,
                                "disableFilenameBasedTypeAcquisition",
                            ) {
                                Ok(dis) => Ok(
                                    TypeAcquisition::Object {
                                        enable: en,
                                        include_patterns: inc,
                                        exclude: exc,
                                        disable_filename_based_type_acquisition: dis,
                                    },
                                ),
                                Err(e) => Err(e),
                            },
                            Err(e) => Err(e),
                        },
                        Err(e) => Err(e),
                    }
                },
                Ok(Option::None) => Err(
                    ConfigError::ShapeMismatch {
                        field: "enable".to_owned(),
                        found: JsonKind::Null,
                    },
                ),
                Err(e) => Err(e),
            },
            other => Err(
                ConfigError::ShapeMismatch {
                    field: "typeAcquisition".to_owned(),
                    found: json::kind(other),
                },
            ),
        }
    }
}

/// The `references` schema field: absent or `null` is unset; a present
/// value resolves through [`spec_references_value`].
pub open spec fn spec_opt_references(m: Seq<(Seq<char>, JsonV)>) -> Result<
    Option<ReferencesV>,
    ConfigErrorV,
> {
    match crate::json::lookup(m, "references"@) {
        Option::None => Ok(Option::None),
        Option::Some(v) => match v {
            JsonV::Null => Ok(Option::None),
            _ => match spec_references_value(v) {
                Ok(rs) => Ok(Option::Some(rs)),
                Err(e) => Err(e),
            },
        },
    }
}

/// The `typeAcquisition` schema field: absent or `null` is unset; a present
/// value resolves through [`spec_type_acquisition_value`].
pub open spec fn spec_opt_type_acquisition(m: Seq<(Seq<char>, JsonV)>) -> Result<
    Option<TypeAcquisitionV>,
    ConfigErrorV,
> {
    match crate::json::lookup(m, "typeAcquisition"@) {
        Option::None => Ok(Option::None),
        Option::Some(v) => match v {
            JsonV::Null => Ok(Option::None),
            _ => match spec_type_acquisition_value(v) {
                Ok(ta) => Ok(Option::Some(ta)),
                Err(e) => Err(e),
            },
        },
    }
}

/// Extracts the `references` schema field.
pub fn get_opt_references(m: &Vec<(String, Json)>) -> (r: Result<Option<References>, ConfigError>)
    ensures
        match r {
            Ok(o) => spec_opt_references(entries_view(m@)) == Ok::<
                Option<ReferencesV>,
                ConfigErrorV,
            >(o.deep_view()),
            Err(e) => spec_opt_references(entries_view(m@)) == Err::<
                Option<ReferencesV>,
                ConfigErrorV,
            >(e@),
        },
{
    match json::get(m, "references") {
        Option::None => Ok(Option::None),
        Option::Some(j) => match j {
            Json::Null => Ok(Option::None),
            other => match References::resolve(other) {
                Ok(rs) => Ok(Option::Some(rs)),
                Err(e) => Err(e),
            },
        },
    }
}

/// Extracts the `typeAcquisition` schema field.
pub fn get_opt_type_acquisition(m: &Vec<(String, Json)>) -> (r: Result<
    Option<TypeAcquisition>,
    ConfigError,
>)
    ensures
        match r {
            Ok(o) => spec_opt_type_acquisition(entries_view(m@)) == Ok::<
                Option<TypeAcquisitionV>,
                ConfigErrorV,
            >(o.deep_view()),
            Err(e) => spec_opt_type_acquisition(entries_view(m@)) == Err::<
                Option<TypeAcquisitionV>,
                ConfigErrorV,
            >(e@),
        },
{
    match json::get(m, "typeAcquisition") {
        Option::None => Ok(Option::None),
        Option::Some(j) => match j {
            Json::Null => Ok(Option::None),
            other => match TypeAcquisition::resolve(other) {
                Ok(ta) => Ok(Option::Some(ta)),
                Err(e) => Err(e),
            },
        },
    }
}

/// A key a reference object does not know never changes how the element
/// resolves, wherever the member stands.
pub proof fn lemma_unknown_reference_member_ignored(
    m: Seq<(Seq<char>, JsonV)>,
    at: int,
    k: Seq<char>,
    w: JsonV,
)
    requires
        0 <= at <= m.len(),
        k != "path"@,
        k != "prepend"@,
    ensures
        spec_reference(JsonV::Obj(m.insert(at, (k, w)))) == spec_reference(JsonV::Obj(m)),
{
    crate::json::lemma_lookup_insert_ne(m, at, k, w, "path"@);
    crate::json::lemma_lookup_insert_ne(m, at, k, w, "prepend"@);
}

/// A key a type-acquisition object does not know never changes how the
/// field resolves, wherever the member stands.
pub proof fn lemma_unknown_type_acquisition_member_ignored(
    m: Seq<(Seq<char>, JsonV)>,
    at: int,
    k: Seq<char>,
    w: JsonV,
)
    requires
        0 <= at <= m.len(),
        k != "enable"@,
        k != crate::fields::inclusion_key(),
        k != "exclude"@,
        k != "disableFilenameBasedTypeAcquisition"@,
    ensures
        spec_type_acquisition_value(JsonV::Obj(m.insert(at, (k, w))))
            == spec_type_acquisition_value(JsonV::Obj(m)),
{
    crate::json::lemma_lookup_insert_ne(m, at, k, w, "enable"@);
    crate::json::lemma_lookup_insert_ne(m, at, k, w, crate::fields::inclusion_key());
    crate::json::lemma_lookup_insert_ne(m, at, k, w, "exclude"@);
    crate::json::lemma_lookup_insert_ne(m, at, k, w, "disableFilenameBasedTypeAcquisition"@);
}

} // verus!

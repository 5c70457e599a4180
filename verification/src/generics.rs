//! The generic parameters of the generated family: the record's own, as
//! declared and as used, one tag parameter for each field, the list under
//! which the checked finalize is offered, and the where-clause.

use vstd::prelude::*;
use crate::error::{result_view, unknown_param_kind, ErrorSpec, GenerationError};
use crate::model::{
    DefaultPolicy, FieldDescription, FieldKey, FieldKeySpec, FieldSpec, GenericParamDescription,
    GenericParamSpec, RawGenericParam, RawGenericParamSpec, RecordDescription, RecordSpec,
};
use crate::search::{is_least, least, lemma_least};
use crate::tags::{set_marker, set_marker_name};
use crate::text::{decimal, decimal_text, join};

verus! {

/// What stands in the tag slot of a field where the builder type is named:
/// a parameter that is in scope there, or a marker type.
#[derive(Clone, Debug, PartialEq, Eq)]
pub enum TagArg {
    Param(String),
    Marker(String),
}

/// The mathematical twin of [`TagArg`].
pub enum TagArgSpec {
    Param(Seq<char>),
    Marker(Seq<char>),
}

impl DeepView for TagArg {
    type V = TagArgSpec;

    open spec fn deep_view(&self) -> TagArgSpec {
        match self {
            TagArg::Param(p) => TagArgSpec::Param(p@),
            TagArg::Marker(m) => TagArgSpec::Marker(m@),
        }
    }
}

/// One predicate of the where-clause of the generated items.
#[derive(Clone, Debug, PartialEq, Eq)]
pub enum WherePredicate {
    /// The predicates that the record itself declares, as written.
    Declared(String),
    /// The type with these tokens has a default value.
    DefaultConstructible(String),
}

/// The mathematical twin of [`WherePredicate`].
pub enum WherePredicateSpec {
    Declared(Seq<char>),
    DefaultConstructible(Seq<char>),
}

impl DeepView for WherePredicate {
    type V = WherePredicateSpec;

    open spec fn deep_view(&self) -> WherePredicateSpec {
        match self {
            WherePredicate::Declared(w) => WherePredicateSpec::Declared(w@),
            WherePredicate::DefaultConstructible(t) => WherePredicateSpec::DefaultConstructible(t@),
        }
    }
}

/// The parameter lists of the generated items.
#[derive(Clone, Debug, PartialEq, Eq)]
pub struct GenericPlan {
    /// The record's parameters with their bounds, for the headers of items.
    pub declaration: Vec<GenericParamDescription>,
    /// The bare identifiers of the record's parameters, for naming the
    /// record or the builder.
    pub usage: Vec<String>,
    /// One parameter for each field, in the order of the fields. After
    /// `declaration` they make up the parameters of the builder type.
    pub tag_params: Vec<String>,
    /// The tag parameters of the fields with a default: what the checked
    /// finalize is generic in, after `declaration`.
    pub buildable_params: Vec<String>,
    /// The tag arguments of the builder that the checked finalize is
    /// offered on.
    pub buildable_args: Vec<TagArg>,
    pub where_clause: Vec<WherePredicate>,
}

/// The mathematical twin of [`GenericPlan`].
pub struct GenericPlanSpec {
    pub declaration: Seq<GenericParamSpec>,
    pub usage: Seq<Seq<char>>,
    pub tag_params: Seq<Seq<char>>,
    pub buildable_params: Seq<Seq<char>>,
    pub buildable_args: Seq<TagArgSpec>,
    pub where_clause: Seq<WherePredicateSpec>,
}

impl DeepView for GenericPlan {
    type V = GenericPlanSpec;

    open spec fn deep_view(&self) -> GenericPlanSpec {
        GenericPlanSpec {
            declaration: self.declaration.deep_view(),
            usage: self.usage.deep_view(),
            tag_params: self.tag_params.deep_view(),
            buildable_params: self.buildable_params.deep_view(),
            buildable_args: self.buildable_args.deep_view(),
            where_clause: self.where_clause.deep_view(),
        }
    }
}

/// The name of the tag parameter of a field: `Field` and the label of a
/// named field, `Field` and the position of a positional one.
pub open spec fn tag_param(field: FieldSpec) -> Seq<char> {
    "Field"@ + match field.key {
        FieldKeySpec::Named(_) => field.label,
        FieldKeySpec::Positional(i) => decimal(i),
    }
}

/// The tag parameters of the fields, in their order.
pub open spec fn tag_params(fields: Seq<FieldSpec>) -> Seq<Seq<char>> {
    Seq::new(fields.len(), |i: int| tag_param(fields[i]))
}

/// The bare identifiers of the parameters, in their order.
pub open spec fn usage(generics: Seq<GenericParamSpec>) -> Seq<Seq<char>> {
    Seq::new(generics.len(), |i: int| generics[i].ident)
}

/// The tag parameters of the fields that have a default, in the order of
/// the fields.
pub open spec fn buildable_params(fields: Seq<FieldSpec>) -> Seq<Seq<char>>
    decreases fields.len(),
{
    if fields.len() == 0 {
        Seq::empty()
    } else if fields.last().has_default() {
        buildable_params(fields.drop_last()).push(tag_param(fields.last()))
    } else {
        buildable_params(fields.drop_last())
    }
}

/// The tag argument of a field in the builder that can be finalized: its
/// own parameter where the field has a default, its marker for "set" where
/// it has none.
pub open spec fn buildable_arg(field: FieldSpec) -> TagArgSpec {
    if field.has_default() {
        TagArgSpec::Param(tag_param(field))
    } else {
        TagArgSpec::Marker(set_marker(field.label))
    }
}

/// The tag arguments of the builder that can be finalized.
pub open spec fn buildable_args(fields: Seq<FieldSpec>) -> Seq<TagArgSpec> {
    Seq::new(fields.len(), |i: int| buildable_arg(fields[i]))
}

/// One bound for each field that starts with the default of its type: that
/// type has a default.
pub open spec fn default_bounds(fields: Seq<FieldSpec>) -> Seq<WherePredicateSpec>
    decreases fields.len(),
{
    if fields.len() == 0 {
        Seq::empty()
    } else if fields.last().default is DefaultConstruct {
        default_bounds(fields.drop_last()).push(
            WherePredicateSpec::DefaultConstructible(fields.last().ty),
        )
    } else {
        default_bounds(fields.drop_last())
    }
}

/// The where-clause of the generated items: what the record declares, then
/// the bounds that its defaults need.
pub open spec fn where_predicates(record: RecordSpec) -> Seq<WherePredicateSpec> {
    match record.where_clause {
        Some(w) => seq![WherePredicateSpec::Declared(w)] + default_bounds(record.fields),
        None => default_bounds(record.fields),
    }
}

/// The parameter lists for a record.
pub open spec fn plan_of(record: RecordSpec) -> GenericPlanSpec {
    GenericPlanSpec {
        declaration: record.generics,
        usage: usage(record.generics),
        tag_params: tag_params(record.fields),
        buildable_params: buildable_params(record.fields),
        buildable_args: buildable_args(record.fields),
        where_clause: where_predicates(record),
    }
}

/// At which indices a parameter is of no known kind.
pub open spec fn is_unknown(raws: Seq<RawGenericParamSpec>) -> spec_fn(int) -> bool {
    |i: int| raws[i].kind is None
}

/// The canonical form of a parameter of known kind.
pub open spec fn known_param(raw: RawGenericParamSpec) -> GenericParamSpec {
    GenericParamSpec { kind: raw.kind->Some_0, ident: raw.ident, bounds: raw.bounds }
}

/// The parameters in canonical form, in their order; where one is of no
/// known kind, the error of the first such parameter.
pub open spec fn normalized_generics(raws: Seq<RawGenericParamSpec>) -> Result<
    Seq<GenericParamSpec>,
    ErrorSpec,
> {
    let k = least(0, raws.len() as int, is_unknown(raws));
    if k < raws.len() {
        Err(unknown_param_kind(k as usize))
    } else {
        Ok(Seq::new(raws.len(), |i: int| known_param(raws[i])))
    }
}

/// Brings the parameters into canonical form, or reports the first of them
/// whose kind is unknown.
pub fn normalize_generics(raws: &Vec<RawGenericParam>) -> (r: Result<
    Vec<GenericParamDescription>,
    GenerationError,
>)
    ensures
        result_view(r) == normalized_generics(raws.deep_view()),
{
    let ghost rs = raws.deep_view();
    let mut out: Vec<GenericParamDescription> = Vec::new();
    let mut i: usize = 0;
    while i < raws.len()
        invariant
            i <= raws.len(),
            rs == raws.deep_view(),
            out.len() == i,
            forall|j: int| 0 <= j < i ==> (#[trigger] rs[j]).kind is Some,
            forall|j: int| 0 <= j < i ==> #[trigger] out[j].deep_view() == known_param(rs[j]),
        decreases raws.len() - i,
    {
        assert(rs[i as int] == raws[i as int].deep_view());
        match raws[i].kind {
            Some(kind) => {
                out.push(
                    GenericParamDescription {
                        kind,
                        ident: raws[i].ident.clone(),
                        bounds: raws[i].bounds.clone(),
                    },
                );
            },
            None => {
                proof {
                    let p = is_unknown(rs);
                    assert forall|j: int| 0 <= j < i implies !#[trigger] p(j) by {
                        assert(rs[j].kind is Some);
                    }
                    assert(is_least(i as int, 0, rs.len() as int, p));
                    lemma_least(i as int, 0, rs.len() as int, p);
                }
                return Err(GenerationError::unknown_param_kind(i));
            },
        }
        i = i + 1;
    }
    proof {
        let p = is_unknown(rs);
        assert forall|j: int| 0 <= j < i implies !#[trigger] p(j) by {
            assert(rs[j].kind is Some);
        }
        assert(is_least(i as int, 0, rs.len() as int, p));
        lemma_least(i as int, 0, rs.len() as int, p);
        assert(out.deep_view() =~= normalized_generics(rs)->Ok_0);
    }
    Ok(out)
}

/// Names the tag parameter of a field.
pub fn tag_param_name(field: &FieldDescription) -> (r: String)
    ensures
        r@ == tag_param(field.deep_view()),
{
    match &field.key {
        FieldKey::Named(_) => join("Field", field.label.as_str()),
        FieldKey::Positional(i) => join("Field", decimal_text(*i).as_str()),
    }
}

/// Names the tag parameter of each field.
pub fn tag_param_names(fields: &Vec<FieldDescription>) -> (r: Vec<String>)
    ensures
        r.deep_view() == tag_params(fields.deep_view()),
{
    let ghost fs = fields.deep_view();
    let mut out: Vec<String> = Vec::new();
    let mut i: usize = 0;
    while i < fields.len()
        invariant
            i <= fields.len(),
            fs == fields.deep_view(),
            out.len() == i,
            forall|j: int| 0 <= j < i ==> #[trigger] out[j]@ == tag_param(fs[j]),
        decreases fields.len() - i,
    {
        assert(fs[i as int] == fields[i as int].deep_view());
        out.push(tag_param_name(&fields[i]));
        i = i + 1;
    }
    assert(out.deep_view() =~= tag_params(fs));
    out
}

/// Projects the parameters of the record to their bare identifiers.
pub fn use_form(generics: &Vec<GenericParamDescription>) -> (r: Vec<String>)
    ensures
        r.deep_view() == usage(generics.deep_view()),
{
    let ghost gs = generics.deep_view();
    let mut out: Vec<String> = Vec::new();
    let mut i: usize = 0;
    while i < generics.len()
        invariant
            i <= generics.len(),
            gs == generics.deep_view(),
            out.len() == i,
            forall|j: int| 0 <= j < i ==> #[trigger] out[j]@ == gs[j].ident,
        decreases generics.len() - i,
    {
        assert(gs[i as int] == generics[i as int].deep_view());
        out.push(generics[i].ident.clone());
        i = i + 1;
    }
    assert(out.deep_view() =~= usage(gs));
    out
}

/// Keeps the parameters of the record as they were declared.
pub fn declaration_form(generics: &Vec<GenericParamDescription>) -> (r: Vec<
    GenericParamDescription,
>)
    ensures
        r.deep_view() == generics.deep_view(),
{
    let ghost gs = generics.deep_view();
    let mut out: Vec<GenericParamDescription> = Vec::new();
    let mut i: usize = 0;
    while i < generics.len()
        invariant
            i <= generics.len(),
            gs == generics.deep_view(),
            out.len() == i,
            forall|j: int| 0 <= j < i ==> #[trigger] out[j].deep_view() == gs[j],
        decreases generics.len() - i,
    {
        assert(gs[i as int] == generics[i as int].deep_view());
        let g = &generics[i];
        out.push(
            GenericParamDescription {
                kind: g.kind,
                ident: g.ident.clone(),
                bounds: g.bounds.clone(),
            },
        );
        i = i + 1;
    }
    assert(out.deep_view() =~= gs);
    out
}

/// Lists the tag parameters that the checked finalize is generic in.
pub fn buildable_param_names(fields: &Vec<FieldDescription>) -> (r: Vec<String>)
    ensures
        r.deep_view() == buildable_params(fields.deep_view()),
{
    let ghost fs = fields.deep_view();
    let mut out: Vec<String> = Vec::new();
    let mut i: usize = 0;
    assert(fs.take(0) =~= Seq::empty());
    while i < fields.len()
        invariant
            i <= fields.len(),
            fs == fields.deep_view(),
            out.deep_view() == buildable_params(fs.take(i as int)),
        decreases fields.len() - i,
    {
        assert(fs[i as int] == fields[i as int].deep_view());
        proof {
            let next = fs.take(i + 1);
            assert(next.drop_last() =~= fs.take(i as int));
            assert(next.last() == fs[i as int]);
        }
        if fields[i].has_default() {
            let ghost before = out.deep_view();
            out.push(tag_param_name(&fields[i]));
            assert(out.deep_view() =~= before.push(tag_param(fs[i as int])));
        }
        i = i + 1;
    }
    assert(fs.take(i as int) =~= fs);
    out
}

/// Lists the tag arguments of the builder that can be finalized.
pub fn buildable_arg_list(fields: &Vec<FieldDescription>) -> (r: Vec<TagArg>)
    ensures
        r.deep_view() == buildable_args(fields.deep_view()),
{
    let ghost fs = fields.deep_view();
    let mut out: Vec<TagArg> = Vec::new();
    let mut i: usize = 0;
    while i < fields.len()
        invariant
            i <= fields.len(),
            fs == fields.deep_view(),
            out.len() == i,
            forall|j: int| 0 <= j < i ==> #[trigger] out[j].deep_view() == buildable_arg(fs[j]),
        decreases fields.len() - i,
    {
        assert(fs[i as int] == fields[i as int].deep_view());
        let arg = if fields[i].has_default() {
            TagArg::Param(tag_param_name(&fields[i]))
        } else {
            TagArg::Marker(set_marker_name(&fields[i]))
        };
        out.push(arg);
        i = i + 1;
    }
    assert(out.deep_view() =~= buildable_args(fs));
    out
}

/// Builds the where-clause of the generated items.
pub fn augment_where_clause(record: &RecordDescription) -> (r: Vec<WherePredicate>)
    ensures
        r.deep_view() == where_predicates(record.deep_view()),
{
    let ghost fs = record.fields.deep_view();
    let mut out: Vec<WherePredicate> = Vec::new();
    match &record.where_clause {
        Some(w) => {
            out.push(WherePredicate::Declared(w.clone()));
        },
        None => {},
    }
    let ghost head = out.deep_view();
    let mut i: usize = 0;
    assert(fs.take(0) =~= Seq::empty());
    assert(out.deep_view() =~= head + default_bounds(fs.take(0)));
    while i < record.fields.len()
        invariant
            i <= record.fields.len(),
            fs == record.fields.deep_view(),
            out.deep_view() == head + default_bounds(fs.take(i as int)),
        decreases record.fields.len() - i,
    {
        assert(fs[i as int] == record.fields[i as int].deep_view());
        proof {
            let next = fs.take(i + 1);
            assert(next.drop_last() =~= fs.take(i as int));
            assert(next.last() == fs[i as int]);
        }
        match &record.fields[i].default {
            DefaultPolicy::DefaultConstruct => {
                let ghost before = out.deep_view();
                out.push(WherePredicate::DefaultConstructible(record.fields[i].ty.clone()));
                assert(out.deep_view() =~= before.push(
                    WherePredicateSpec::DefaultConstructible(fs[i as int].ty),
                ));
                assert(out.deep_view() =~= head + default_bounds(fs.take(i + 1)));
            },
            _ => {},
        }
        i = i + 1;
    }
    assert(fs.take(i as int) =~= fs);
    assert(head =~= match record.deep_view().where_clause {
        Some(w) => seq![WherePredicateSpec::Declared(w)],
        None => Seq::empty(),
    });
    assert(Seq::<WherePredicateSpec>::empty() + default_bounds(fs) =~= default_bounds(fs));
    out
}

/// Plans the parameter lists of the family generated for `record`.
pub fn plan_generics(record: &RecordDescription) -> (r: GenericPlan)
    ensures
        r.deep_view() == plan_of(record.deep_view()),
{
    GenericPlan {
        declaration: declaration_form(&record.generics),
        usage: use_form(&record.generics),
        tag_params: tag_param_names(&record.fields),
        buildable_params: buildable_param_names(&record.fields),
        buildable_args: buildable_arg_list(&record.fields),
        where_clause: augment_where_clause(record),
    }
}

} // verus!

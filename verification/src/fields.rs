//! The field model: from the fields as they arrive to the canonical ones.
//! A field gets its key, its capitalised label, and the default policy that
//! its first `default` annotation asks for.

use vstd::prelude::*;
use crate::error::{malformed_default, result_view, ErrorSpec, GenerationError};
use crate::model::{
    Annotation, AnnotationArgs, AnnotationArgsSpec, AnnotationSpec, DefaultPolicy,
    DefaultPolicySpec, Delimiter, FieldDescription, FieldKey, FieldKeySpec, FieldSpec, RawField,
    RawFieldSpec, TokenKind,
};
use crate::search::{is_least, least, lemma_least};
use crate::text::{capitalize, capitalized, decimal, decimal_text, join};

verus! {

/// Whether two texts are the same.
pub fn same_text(a: &str, b: &str) -> (r: bool)
    ensures
        r == (a@ == b@),
{
    String::from_str(a) == String::from_str(b)
}

/// Whether the annotation states a default policy.
pub open spec fn names_default(a: AnnotationSpec) -> bool {
    a.name == "default"@
}

/// The policy that the arguments of a `default` annotation ask for: none
/// at all asks for the default of the type; one literal, or one group in
/// parentheses, is the expression to start with, kept as written. No other
/// shape is accepted.
pub open spec fn policy_of_args(args: AnnotationArgsSpec) -> Option<DefaultPolicySpec> {
    match args {
        AnnotationArgsSpec::Bare => Some(DefaultPolicySpec::DefaultConstruct),
        AnnotationArgsSpec::List(tokens) => if tokens.len() == 1 && (tokens[0].kind
            == TokenKind::Literal || tokens[0].kind == TokenKind::Group(Delimiter::Parenthesis)) {
            Some(DefaultPolicySpec::DefaultExpr(tokens[0].text))
        } else {
            None
        },
        AnnotationArgsSpec::Assigned => None,
    }
}

/// At which indices an annotation states a default policy.
pub open spec fn states_default(annotations: Seq<AnnotationSpec>) -> spec_fn(int) -> bool {
    |i: int| names_default(annotations[i])
}

/// The index of the first annotation that states a default policy, or the
/// number of annotations where none does.
pub open spec fn first_default(annotations: Seq<AnnotationSpec>) -> int {
    least(0, annotations.len() as int, states_default(annotations))
}

/// The default policy of the field `field`, read off its annotations: that
/// of the first `default` annotation, an error at that annotation where its
/// arguments are not accepted, and no default where no annotation states
/// one.
pub open spec fn policy_of(annotations: Seq<AnnotationSpec>, field: usize) -> Result<
    DefaultPolicySpec,
    ErrorSpec,
> {
    let i = first_default(annotations);
    if i >= annotations.len() {
        Ok(DefaultPolicySpec::NoDefault)
    } else {
        match policy_of_args(annotations[i].args) {
            Some(policy) => Ok(policy),
            None => Err(malformed_default(field, i as usize)),
        }
    }
}

/// The key of a field: its name as written, or its position.
pub open spec fn key_of(name: Option<Seq<char>>, index: nat) -> FieldKeySpec {
    match name {
        Some(n) => FieldKeySpec::Named(n),
        None => FieldKeySpec::Positional(index),
    }
}

/// The label of a field: its name capitalised, or `Field` and its position.
pub open spec fn label_of(name: Option<Seq<char>>, index: nat) -> Seq<char> {
    match name {
        Some(n) => capitalized(n),
        None => "Field"@ + decimal(index),
    }
}

/// The canonical form of the field that arrives as `raw` at position
/// `index`.
pub open spec fn normalized_field(raw: RawFieldSpec, index: usize) -> Result<FieldSpec, ErrorSpec> {
    match policy_of(raw.annotations, index) {
        Ok(policy) => Ok(
            FieldSpec {
                key: key_of(raw.name, index as nat),
                label: label_of(raw.name, index as nat),
                ty: raw.ty,
                default: policy,
            },
        ),
        Err(e) => Err(e),
    }
}

/// At which indices a field has no canonical form.
pub open spec fn is_malformed(raws: Seq<RawFieldSpec>) -> spec_fn(int) -> bool {
    |i: int| normalized_field(raws[i], i as usize) is Err
}

/// The index of the first field that has no canonical form, or the number
/// of fields where each has one.
pub open spec fn first_malformed(raws: Seq<RawFieldSpec>) -> int {
    least(0, raws.len() as int, is_malformed(raws))
}

/// The canonical forms of the fields, in their order; where a field has
/// none, the error of the first such field.
pub open spec fn normalized_fields(raws: Seq<RawFieldSpec>) -> Result<Seq<FieldSpec>, ErrorSpec> {
    let k = first_malformed(raws);
    if k < raws.len() {
        Err(normalized_field(raws[k], k as usize)->Err_0)
    } else {
        Ok(Seq::new(raws.len(), |i: int| normalized_field(raws[i], i as usize)->Ok_0))
    }
}

/// Reads the policy that the arguments of a `default` annotation ask for.
pub fn policy_from_args(args: &AnnotationArgs) -> (r: Option<DefaultPolicy>)
    ensures
        match r {
            Some(p) => policy_of_args(args.deep_view()) == Some(p.deep_view()),
            None => policy_of_args(args.deep_view()) is None,
        },
{
    match args {
        AnnotationArgs::Bare => Some(DefaultPolicy::DefaultConstruct),
        AnnotationArgs::List(tokens) => {
            if tokens.len() != 1 {
                return None;
            }
            let accepted = match tokens[0].kind {
                TokenKind::Literal => true,
                TokenKind::Group(Delimiter::Parenthesis) => true,
                _ => false,
            };
            if accepted {
                Some(DefaultPolicy::DefaultExpr(tokens[0].text.clone()))
            } else {
                None
            }
        },
        AnnotationArgs::Assigned => None,
    }
}

/// Reads the default policy of the field `field` off its annotations.
pub fn parse_default_policy(annotations: &Vec<Annotation>, field: usize) -> (r: Result<
    DefaultPolicy,
    GenerationError,
>)
    ensures
        result_view(r) == policy_of(annotations.deep_view(), field),
{
    let ghost anns = annotations.deep_view();
    let mut i: usize = 0;
    while i < annotations.len()
        invariant
            i <= annotations.len(),
            anns == annotations.deep_view(),
            forall|j: int| 0 <= j < i ==> !names_default(#[trigger] anns[j]),
        decreases annotations.len() - i,
    {
        if same_text(annotations[i].name.as_str(), "default") {
            proof {
                let p = states_default(anns);
                assert(anns[i as int] == annotations[i as int].deep_view());
                assert forall|j: int| 0 <= j < i implies !#[trigger] p(j) by {
                    assert(!names_default(anns[j]));
                }
                assert(is_least(i as int, 0, anns.len() as int, p));
                lemma_least(i as int, 0, anns.len() as int, p);
            }
            return match policy_from_args(&annotations[i].args) {
                Some(policy) => Ok(policy),
                None => Err(GenerationError::malformed_default(field, i)),
            };
        }
        assert(anns[i as int] == annotations[i as int].deep_view());
        i = i + 1;
    }
    proof {
        let p = states_default(anns);
        assert forall|j: int| 0 <= j < i implies !#[trigger] p(j) by {
            assert(!names_default(anns[j]));
        }
        assert(is_least(i as int, 0, anns.len() as int, p));
        lemma_least(i as int, 0, anns.len() as int, p);
    }
    Ok(DefaultPolicy::NoDefault)
}

/// Brings the field that arrives as `raw` at position `index` into
/// canonical form.
pub fn normalize_field(raw: &RawField, index: usize) -> (r: Result<FieldDescription, GenerationError>)
    ensures
        result_view(r) == normalized_field(raw.deep_view(), index),
{
    let default = match parse_default_policy(&raw.annotations, index) {
        Ok(policy) => policy,
        Err(e) => {
            return Err(e);
        },
    };
    let (key, label) = match &raw.name {
        Some(n) => (FieldKey::Named(n.clone()), capitalize(n.as_str())),
        None => (FieldKey::Positional(index), join("Field", decimal_text(index).as_str())),
    };
    Ok(FieldDescription { key, label, ty: raw.ty.clone(), default })
}

/// Brings the fields into canonical form, or reports the first of them
/// whose `default` annotation is malformed.
pub fn normalize_fields(raws: &Vec<RawField>) -> (r: Result<Vec<FieldDescription>, GenerationError>)
    ensures
        result_view(r) == normalized_fields(raws.deep_view()),
{
    let ghost rs = raws.deep_view();
    let mut out: Vec<FieldDescription> = Vec::new();
    let mut i: usize = 0;
    while i < raws.len()
        invariant
            i <= raws.len(),
            rs == raws.deep_view(),
            out.len() == i,
            forall|j: int|
                0 <= j < i ==> normalized_field(rs[j], j as usize) == Ok::<FieldSpec, ErrorSpec>(
                    #[trigger] out[j].deep_view(),
                ),
        decreases raws.len() - i,
    {
        assert(rs[i as int] == raws[i as int].deep_view());
        match normalize_field(&raws[i], i) {
            Ok(field) => {
                out.push(field);
            },
            Err(e) => {
                proof {
                    let p = is_malformed(rs);
                    assert forall|j: int| 0 <= j < i implies !#[trigger] p(j) by {
                        assert(normalized_field(rs[j], j as usize) == Ok::<FieldSpec, ErrorSpec>(
                            out[j].deep_view(),
                        ));
                    }
                    assert(is_least(i as int, 0, rs.len() as int, p));
                    lemma_least(i as int, 0, rs.len() as int, p);
                }
                return Err(e);
            },
        }
        i = i + 1;
    }
    proof {
        let p = is_malformed(rs);
        assert forall|j: int| 0 <= j < i implies !#[trigger] p(j) by {
            assert(normalized_field(rs[j], j as usize) == Ok::<FieldSpec, ErrorSpec>(
                out[j].deep_view(),
            ));
        }
        assert(is_least(i as int, 0, rs.len() as int, p));
        lemma_least(i as int, 0, rs.len() as int, p);
        assert forall|j: int| 0 <= j < i implies out.deep_view()[j] == normalized_field(
            rs[j],
            j as usize,
        )->Ok_0 by {
            assert(normalized_field(rs[j], j as usize) == Ok::<FieldSpec, ErrorSpec>(
                out[j].deep_view(),
            ));
        }
        assert(out.deep_view() =~= normalized_fields(rs)->Ok_0);
    }
    Ok(out)
}

} // verus!

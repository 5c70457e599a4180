//! The setters: for each field one operation, offered on the builder whose
//! tag for that field is the marker for "unset", whatever the other tags
//! are, and returning the builder whose tag for that field is the marker for
//! "set".

use vstd::prelude::*;
use crate::generics::{tag_param, tag_param_name, tag_params, TagArg, TagArgSpec};
use crate::model::{FieldDescription, FieldKey, FieldKeySpec, FieldSpec};
use crate::tags::{set_marker, set_marker_name, unset_marker, unset_marker_name};
use crate::text::{bare, bare_name, decimal, decimal_text, join};

verus! {

/// The setter of one field, with the writer that it shares with the
/// population of defaults.
#[derive(Clone, Debug, PartialEq, Eq)]
pub struct Setter {
    /// The field that is written.
    pub field: FieldKey,
    /// `set_` and the key of the field.
    pub name: String,
    /// `inner_` and `name`: the writer into storage.
    pub inner_name: String,
    /// The tokens of the type of the value, which is taken by move.
    pub value_ty: String,
    /// The tag parameters that the setter is generic in: those of all other
    /// fields.
    pub params: Vec<String>,
    /// The tag arguments of the builder that the setter is offered on.
    pub receiver: Vec<TagArg>,
    /// The tag arguments of the builder that it returns.
    pub result: Vec<TagArg>,
}

/// The mathematical twin of [`Setter`].
pub struct SetterSpec {
    pub field: FieldKeySpec,
    pub name: Seq<char>,
    pub inner_name: Seq<char>,
    pub value_ty: Seq<char>,
    pub params: Seq<Seq<char>>,
    pub receiver: Seq<TagArgSpec>,
    pub result: Seq<TagArgSpec>,
}

impl DeepView for Setter {
    type V = SetterSpec;

    open spec fn deep_view(&self) -> SetterSpec {
        SetterSpec {
            field: self.field.deep_view(),
            name: self.name@,
            inner_name: self.inner_name@,
            value_ty: self.value_ty@,
            params: self.params.deep_view(),
            receiver: self.receiver.deep_view(),
            result: self.result.deep_view(),
        }
    }
}

/// The key of a field as it enters the name of an operation: a name
/// without its raw prefix, a position in decimal.
pub open spec fn key_suffix(key: FieldKeySpec) -> Seq<char> {
    match key {
        FieldKeySpec::Named(n) => bare(n),
        FieldKeySpec::Positional(i) => decimal(i),
    }
}

/// The name of the setter of the field with this key.
pub open spec fn setter_name(key: FieldKeySpec) -> Seq<char> {
    "set_"@ + key_suffix(key)
}

/// The name of the writer of the field with this key.
pub open spec fn writer_name(key: FieldKeySpec) -> Seq<char> {
    "inner_"@ + setter_name(key)
}

/// The tag arguments of a builder in which the field `i` has the marker
/// `marker` and every other field its own tag parameter.
pub open spec fn tags_around(fields: Seq<FieldSpec>, i: int, marker: Seq<char>) -> Seq<TagArgSpec> {
    Seq::new(
        fields.len(),
        |j: int|
            if j == i {
                TagArgSpec::Marker(marker)
            } else {
                TagArgSpec::Param(tag_param(fields[j]))
            },
    )
}

/// The setter of the field `i`.
pub open spec fn setter_of(fields: Seq<FieldSpec>, i: int) -> SetterSpec {
    SetterSpec {
        field: fields[i].key,
        name: setter_name(fields[i].key),
        inner_name: writer_name(fields[i].key),
        value_ty: fields[i].ty,
        params: tag_params(fields).remove(i),
        receiver: tags_around(fields, i, unset_marker(fields[i].label)),
        result: tags_around(fields, i, set_marker(fields[i].label)),
    }
}

/// The setters of the fields, in their order.
pub open spec fn setters_of(fields: Seq<FieldSpec>) -> Seq<SetterSpec> {
    Seq::new(fields.len(), |i: int| setter_of(fields, i))
}

/// A key equal to `key`.
pub fn copy_key(key: &FieldKey) -> (r: FieldKey)
    ensures
        r.deep_view() == key.deep_view(),
{
    match key {
        FieldKey::Named(n) => FieldKey::Named(n.clone()),
        FieldKey::Positional(i) => FieldKey::Positional(*i),
    }
}

/// Writes a key as it enters the name of an operation.
pub fn key_suffix_text(key: &FieldKey) -> (r: String)
    ensures
        r@ == key_suffix(key.deep_view()),
{
    match key {
        FieldKey::Named(n) => bare_name(n.as_str()),
        FieldKey::Positional(i) => decimal_text(*i),
    }
}

/// Names the setter of the field with this key.
pub fn setter_name_text(key: &FieldKey) -> (r: String)
    ensures
        r@ == setter_name(key.deep_view()),
{
    join("set_", key_suffix_text(key).as_str())
}

/// Names the writer of the field with this key.
pub fn writer_name_text(key: &FieldKey) -> (r: String)
    ensures
        r@ == writer_name(key.deep_view()),
{
    join("inner_", setter_name_text(key).as_str())
}

/// Lists the tag parameters of all fields but the field `i`.
fn other_tag_params(fields: &Vec<FieldDescription>, i: usize) -> (r: Vec<String>)
    requires
        i < fields.len(),
    ensures
        r.deep_view() == tag_params(fields.deep_view()).remove(i as int),
{
    let ghost fs = fields.deep_view();
    let ghost all = tag_params(fs);
    let mut out: Vec<String> = Vec::new();
    let mut j: usize = 0;
    while j < fields.len()
        invariant
            j <= fields.len(),
            i < fields.len(),
            fs == fields.deep_view(),
            all == tag_params(fs),
            out.len() == if j <= i { j as int } else { j - 1 },
            forall|k: int|
                0 <= k < out.len() ==> #[trigger] out[k]@ == all[if k < i { k } else { k + 1 }],
        decreases fields.len() - j,
    {
        assert(fs[j as int] == fields[j as int].deep_view());
        if j != i {
            out.push(tag_param_name(&fields[j]));
        }
        j = j + 1;
    }
    assert(out.deep_view() =~= all.remove(i as int));
    out
}

/// Lists the tag arguments of the builder in which the field `i` has the
/// marker `marker` and every other field its own tag parameter.
fn tag_args_around(fields: &Vec<FieldDescription>, i: usize, marker: &str) -> (r: Vec<TagArg>)
    requires
        i < fields.len(),
    ensures
        r.deep_view() == tags_around(fields.deep_view(), i as int, marker@),
{
    let ghost fs = fields.deep_view();
    let mut out: Vec<TagArg> = Vec::new();
    let mut j: usize = 0;
    while j < fields.len()
        invariant
            j <= fields.len(),
            fs == fields.deep_view(),
            out.len() == j,
            forall|k: int|
                0 <= k < j ==> #[trigger] out[k].deep_view() == tags_around(fs, i as int, marker@)[k],
        decreases fields.len() - j,
    {
        assert(fs[j as int] == fields[j as int].deep_view());
        let arg = if j == i {
            TagArg::Marker(String::from_str(marker))
        } else {
            TagArg::Param(tag_param_name(&fields[j]))
        };
        out.push(arg);
        j = j + 1;
    }
    assert(out.deep_view() =~= tags_around(fs, i as int, marker@));
    out
}

/// Emits the setter of the field `i`.
pub fn emit_setter(fields: &Vec<FieldDescription>, i: usize) -> (r: Setter)
    requires
        i < fields.len(),
    ensures
        r.deep_view() == setter_of(fields.deep_view(), i as int),
{
    let field = &fields[i];
    assert(fields.deep_view()[i as int] == field.deep_view());
    Setter {
        field: copy_key(&field.key),
        name: setter_name_text(&field.key),
        inner_name: writer_name_text(&field.key),
        value_ty: field.ty.clone(),
        params: other_tag_params(fields, i),
        receiver: tag_args_around(fields, i, unset_marker_name(field).as_str()),
        result: tag_args_around(fields, i, set_marker_name(field).as_str()),
    }
}

/// Emits the setter of each field.
pub fn emit_setters(fields: &Vec<FieldDescription>) -> (r: Vec<Setter>)
    ensures
        r.deep_view() == setters_of(fields.deep_view()),
{
    let ghost fs = fields.deep_view();
    let mut out: Vec<Setter> = Vec::new();
    let mut i: usize = 0;
    while i < fields.len()
        invariant
            i <= fields.len(),
            fs == fields.deep_view(),
            out.len() == i,
            forall|j: int| 0 <= j < i ==> #[trigger] out[j].deep_view() == setter_of(fs, j),
        decreases fields.len() - i,
    {
        out.push(emit_setter(fields, i));
        i = i + 1;
    }
    assert(out.deep_view() =~= setters_of(fs));
    out
}

} // verus!

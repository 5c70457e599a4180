//! The population of defaults: the writes that the creation of a builder
//! makes, one for each field with a default policy, before the builder is
//! handed out.
//!
//! A field with a default is set from the start as far as its storage goes.
//! The type of the new builder still carries its marker for "unset": the
//! setter of the field stays within reach and overrides the default, and
//! the checked finalize leaves the tag of such a field free.

use vstd::prelude::*;
use crate::model::{DefaultPolicy, DefaultPolicySpec, FieldDescription, FieldSpec};
use crate::setters::{writer_name, writer_name_text};

verus! {

/// What a storage slot is written with.
#[derive(Clone, Debug, PartialEq, Eq)]
pub enum Initializer {
    /// The default value of the field's type.
    ConstructDefault,
    /// The value of the expression whose tokens these are.
    Expr(String),
}

/// The mathematical twin of [`Initializer`].
pub enum InitializerSpec {
    ConstructDefault,
    Expr(Seq<char>),
}

impl DeepView for Initializer {
    type V = InitializerSpec;

    open spec fn deep_view(&self) -> InitializerSpec {
        match self {
            Initializer::ConstructDefault => InitializerSpec::ConstructDefault,
            Initializer::Expr(e) => InitializerSpec::Expr(e@),
        }
    }
}

/// One write at creation: the writer of the field `field` is called with
/// `value`.
#[derive(Clone, Debug, PartialEq, Eq)]
pub struct DefaultWrite {
    pub field: usize,
    pub writer: String,
    pub value: Initializer,
}

/// The mathematical twin of [`DefaultWrite`].
pub struct DefaultWriteSpec {
    pub field: nat,
    pub writer: Seq<char>,
    pub value: InitializerSpec,
}

impl DeepView for DefaultWrite {
    type V = DefaultWriteSpec;

    open spec fn deep_view(&self) -> DefaultWriteSpec {
        DefaultWriteSpec {
            field: self.field as nat,
            writer: self.writer@,
            value: self.value.deep_view(),
        }
    }
}

/// What a field starts with under a policy, if anything.
pub open spec fn initial_value(policy: DefaultPolicySpec) -> Option<InitializerSpec> {
    match policy {
        DefaultPolicySpec::NoDefault => None,
        DefaultPolicySpec::DefaultConstruct => Some(InitializerSpec::ConstructDefault),
        DefaultPolicySpec::DefaultExpr(tokens) => Some(InitializerSpec::Expr(tokens)),
    }
}

/// The writes at creation: for each field with a default policy, in the
/// order of the fields, its writer called with what the policy names.
pub open spec fn default_writes(fields: Seq<FieldSpec>) -> Seq<DefaultWriteSpec>
    decreases fields.len(),
{
    if fields.len() == 0 {
        Seq::empty()
    } else {
        let earlier = default_writes(fields.drop_last());
        match initial_value(fields.last().default) {
            Some(value) => earlier.push(
                DefaultWriteSpec {
                    field: (fields.len() - 1) as nat,
                    writer: writer_name(fields.last().key),
                    value,
                },
            ),
            None => earlier,
        }
    }
}

/// Every write at creation is for one of the fields.
pub proof fn lemma_default_writes_in_range(fields: Seq<FieldSpec>)
    ensures
        forall|m: int|
            0 <= m < default_writes(fields).len() ==> (#[trigger] default_writes(fields)[m]).field
                < fields.len(),
    decreases fields.len(),
{
    if fields.len() > 0 {
        lemma_default_writes_in_range(fields.drop_last());
    }
}

impl Initializer {
    /// An initializer equal to this one.
    pub fn duplicate(&self) -> (r: Initializer)
        ensures
            r.deep_view() == self.deep_view(),
    {
        match self {
            Initializer::ConstructDefault => Initializer::ConstructDefault,
            Initializer::Expr(e) => Initializer::Expr(e.clone()),
        }
    }
}

/// What a field starts with under a policy, if anything.
pub fn initial_value_of(policy: &DefaultPolicy) -> (r: Option<Initializer>)
    ensures
        match r {
            Some(v) => initial_value(policy.deep_view()) == Some(v.deep_view()),
            None => initial_value(policy.deep_view()) is None,
        },
{
    match policy {
        DefaultPolicy::NoDefault => None,
        DefaultPolicy::DefaultConstruct => Some(Initializer::ConstructDefault),
        DefaultPolicy::DefaultExpr(tokens) => Some(Initializer::Expr(tokens.clone())),
    }
}

/// Emits the writes that fill the fields with a default policy.
pub fn emit_defaults(fields: &Vec<FieldDescription>) -> (r: Vec<DefaultWrite>)
    ensures
        r.deep_view() == default_writes(fields.deep_view()),
{
    let ghost fs = fields.deep_view();
    let mut out: Vec<DefaultWrite> = Vec::new();
    let mut i: usize = 0;
    assert(fs.take(0) =~= Seq::empty());
    while i < fields.len()
        invariant
            i <= fields.len(),
            fs == fields.deep_view(),
            out.deep_view() == default_writes(fs.take(i as int)),
        decreases fields.len() - i,
    {
        assert(fs[i as int] == fields[i as int].deep_view());
        proof {
            let next = fs.take(i + 1);
            assert(next.drop_last() =~= fs.take(i as int));
            assert(next.last() == fs[i as int]);
        }
        match initial_value_of(&fields[i].default) {
            Some(value) => {
                let ghost before = out.deep_view();
                let write = DefaultWrite {
                    field: i,
                    writer: writer_name_text(&fields[i].key),
                    value,
                };
                let ghost w = write.deep_view();
                out.push(write);
                assert(out.deep_view() =~= before.push(w));
            },
            None => {},
        }
        i = i + 1;
    }
    assert(fs.take(i as int) =~= fs);
    out
}

} // verus!

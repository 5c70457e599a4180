//! The builder type and its creation. The builder holds storage laid out as
//! one record, unwritten at first, and carries one tag for each field. It is
//! created with every tag at its marker for "unset" and with the fields that
//! have a default already written.

use vstd::prelude::*;
use crate::defaults::{default_writes, emit_defaults, DefaultWrite, DefaultWriteSpec};
use crate::generics::{TagArg, TagArgSpec};
use crate::model::{FieldDescription, FieldSpec, RecordDescription, RecordSpec};
use crate::tags::{unset_marker, unset_marker_name};
use crate::text::{bare, bare_name, join};

verus! {

/// The builder type.
#[derive(Clone, Debug, PartialEq, Eq)]
pub struct BuilderType {
    /// The tokens of the visibility, which is that of the record.
    pub visibility: String,
    /// The name of the record and `Builder`.
    pub name: String,
    /// The name of the builder and `Fields`: the namespace that holds the
    /// marker types and the operations.
    pub namespace: String,
    /// The record whose layout the storage has.
    pub record: String,
    /// Whether the builder is laid out as its storage alone, so that the
    /// address of the builder is the address of the record in the making.
    /// The raw operations rest on it.
    pub transparent: bool,
}

/// The mathematical twin of [`BuilderType`].
pub struct BuilderTypeSpec {
    pub visibility: Seq<char>,
    pub name: Seq<char>,
    pub namespace: Seq<char>,
    pub record: Seq<char>,
    pub transparent: bool,
}

impl DeepView for BuilderType {
    type V = BuilderTypeSpec;

    open spec fn deep_view(&self) -> BuilderTypeSpec {
        BuilderTypeSpec {
            visibility: self.visibility@,
            name: self.name@,
            namespace: self.namespace@,
            record: self.record@,
            transparent: self.transparent,
        }
    }
}

/// The creation of a builder.
#[derive(Clone, Debug, PartialEq, Eq)]
pub struct Creation {
    /// The name of the operation.
    pub name: String,
    /// The tag arguments of the builder that it returns.
    pub builder_args: Vec<TagArg>,
    /// The writes that it makes before it returns.
    pub defaults: Vec<DefaultWrite>,
}

/// The mathematical twin of [`Creation`].
pub struct CreationSpec {
    pub name: Seq<char>,
    pub builder_args: Seq<TagArgSpec>,
    pub defaults: Seq<DefaultWriteSpec>,
}

impl DeepView for Creation {
    type V = CreationSpec;

    open spec fn deep_view(&self) -> CreationSpec {
        CreationSpec {
            name: self.name@,
            builder_args: self.builder_args.deep_view(),
            defaults: self.defaults.deep_view(),
        }
    }
}

/// The name of the builder of the record with this name.
pub open spec fn builder_name(record: Seq<char>) -> Seq<char> {
    bare(record) + "Builder"@
}

/// The name of the namespace of the builder with this name.
pub open spec fn namespace_name(builder: Seq<char>) -> Seq<char> {
    builder + "Fields"@
}

/// The builder type of a record.
pub open spec fn builder_type_of(record: RecordSpec) -> BuilderTypeSpec {
    BuilderTypeSpec {
        visibility: record.visibility,
        name: builder_name(record.name),
        namespace: namespace_name(builder_name(record.name)),
        record: record.name,
        transparent: true,
    }
}

/// The tag arguments of a new builder: for each field its marker for
/// "unset".
pub open spec fn all_unset(fields: Seq<FieldSpec>) -> Seq<TagArgSpec> {
    Seq::new(fields.len(), |i: int| TagArgSpec::Marker(unset_marker(fields[i].label)))
}

/// The creation of the builder for these fields.
pub open spec fn creation_of(fields: Seq<FieldSpec>) -> CreationSpec {
    CreationSpec {
        name: "builder"@,
        builder_args: all_unset(fields),
        defaults: default_writes(fields),
    }
}

/// Names the builder of a record.
pub fn builder_name_text(record: &str) -> (r: String)
    ensures
        r@ == builder_name(record@),
{
    join(bare_name(record).as_str(), "Builder")
}

/// Emits the builder type.
pub fn emit_builder_type(record: &RecordDescription) -> (r: BuilderType)
    ensures
        r.deep_view() == builder_type_of(record.deep_view()),
{
    let name = builder_name_text(record.name.as_str());
    let namespace = join(name.as_str(), "Fields");
    BuilderType {
        visibility: record.visibility.clone(),
        name,
        namespace,
        record: record.name.clone(),
        transparent: true,
    }
}

/// Emits the creation of the builder.
pub fn emit_creation(fields: &Vec<FieldDescription>) -> (r: Creation)
    ensures
        r.deep_view() == creation_of(fields.deep_view()),
{
    let ghost fs = fields.deep_view();
    let mut args: Vec<TagArg> = Vec::new();
    let mut i: usize = 0;
    while i < fields.len()
        invariant
            i <= fields.len(),
            fs == fields.deep_view(),
            args.len() == i,
            forall|j: int| 0 <= j < i ==> #[trigger] args[j].deep_view() == all_unset(fs)[j],
        decreases fields.len() - i,
    {
        assert(fs[i as int] == fields[i as int].deep_view());
        args.push(TagArg::Marker(unset_marker_name(&fields[i])));
        i = i + 1;
    }
    assert(args.deep_view() =~= all_unset(fs));
    Creation {
        name: String::from_str("builder"),
        builder_args: args,
        defaults: emit_defaults(fields),
    }
}

} // verus!

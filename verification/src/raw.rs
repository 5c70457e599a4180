//! The raw way in: for each field an operation that hands out the address
//! of its storage slot, whatever the tags say, and one that hands out the
//! storage itself, written or not.

use vstd::prelude::*;
use crate::model::{FieldDescription, FieldKey, FieldKeySpec, FieldSpec};
use crate::setters::{copy_key, key_suffix, key_suffix_text};
use crate::text::join;

verus! {

/// The raw accessor of one field.
#[derive(Clone, Debug, PartialEq, Eq)]
pub struct RawAccessor {
    /// The field whose slot is addressed.
    pub field: FieldKey,
    /// `ptr_` and the key of the field.
    pub name: String,
    /// The tokens of the type that the address points to.
    pub pointee_ty: String,
}

/// The mathematical twin of [`RawAccessor`].
pub struct RawAccessorSpec {
    pub field: FieldKeySpec,
    pub name: Seq<char>,
    pub pointee_ty: Seq<char>,
}

impl DeepView for RawAccessor {
    type V = RawAccessorSpec;

    open spec fn deep_view(&self) -> RawAccessorSpec {
        RawAccessorSpec {
            field: self.field.deep_view(),
            name: self.name@,
            pointee_ty: self.pointee_ty@,
        }
    }
}

/// The raw operations of a builder.
#[derive(Clone, Debug, PartialEq, Eq)]
pub struct RawAccess {
    pub accessors: Vec<RawAccessor>,
    /// The name of the operation that hands out the storage.
    pub storage: String,
}

/// The mathematical twin of [`RawAccess`].
pub struct RawAccessSpec {
    pub accessors: Seq<RawAccessorSpec>,
    pub storage: Seq<char>,
}

impl DeepView for RawAccess {
    type V = RawAccessSpec;

    open spec fn deep_view(&self) -> RawAccessSpec {
        RawAccessSpec { accessors: self.accessors.deep_view(), storage: self.storage@ }
    }
}

/// The name of the raw accessor of the field with this key.
pub open spec fn accessor_name(key: FieldKeySpec) -> Seq<char> {
    "ptr_"@ + key_suffix(key)
}

/// The raw accessor of a field.
pub open spec fn accessor_of(field: FieldSpec) -> RawAccessorSpec {
    RawAccessorSpec { field: field.key, name: accessor_name(field.key), pointee_ty: field.ty }
}

/// The raw operations for these fields.
pub open spec fn raw_access_of(fields: Seq<FieldSpec>) -> RawAccessSpec {
    RawAccessSpec {
        accessors: Seq::new(fields.len(), |i: int| accessor_of(fields[i])),
        storage: "maybe_uninit"@,
    }
}

/// Emits the raw accessor of a field.
pub fn emit_accessor(field: &FieldDescription) -> (r: RawAccessor)
    ensures
        r.deep_view() == accessor_of(field.deep_view()),
{
    RawAccessor {
        field: copy_key(&field.key),
        name: join("ptr_", key_suffix_text(&field.key).as_str()),
        pointee_ty: field.ty.clone(),
    }
}

/// Emits the raw operations.
pub fn emit_raw_access(fields: &Vec<FieldDescription>) -> (r: RawAccess)
    ensures
        r.deep_view() == raw_access_of(fields.deep_view()),
{
    let ghost fs = fields.deep_view();
    let mut out: Vec<RawAccessor> = Vec::new();
    let mut i: usize = 0;
    while i < fields.len()
        invariant
            i <= fields.len(),
            fs == fields.deep_view(),
            out.len() == i,
            forall|j: int| 0 <= j < i ==> #[trigger] out[j].deep_view() == accessor_of(fs[j]),
        decreases fields.len() - i,
    {
        assert(fs[i as int] == fields[i as int].deep_view());
        out.push(emit_accessor(&fields[i]));
        i = i + 1;
    }
    assert(out.deep_view() =~= raw_access_of(fs).accessors);
    RawAccess { accessors: out, storage: String::from_str("maybe_uninit") }
}

} // verus!

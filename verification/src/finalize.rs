//! The two ways out of a builder. The checked one is offered only on the
//! builder whose every field without a default has the marker for "set";
//! the unchecked one is offered on every builder and leaves it to the
//! caller that all storage was written.

use vstd::prelude::*;
use crate::generics::{
    buildable_arg_list, buildable_args, buildable_param_names, buildable_params, TagArg,
    TagArgSpec,
};
use crate::model::{FieldDescription, FieldSpec};

verus! {

/// The finalize operations.
#[derive(Clone, Debug, PartialEq, Eq)]
pub struct Finalize {
    /// The name of the checked operation.
    pub checked: String,
    /// The name of the unchecked operation.
    pub unchecked: String,
    /// The tag parameters that the checked operation is generic in.
    pub params: Vec<String>,
    /// The tag arguments of the builder that the checked operation is
    /// offered on.
    pub receiver: Vec<TagArg>,
}

/// The mathematical twin of [`Finalize`].
pub struct FinalizeSpec {
    pub checked: Seq<char>,
    pub unchecked: Seq<char>,
    pub params: Seq<Seq<char>>,
    pub receiver: Seq<TagArgSpec>,
}

impl DeepView for Finalize {
    type V = FinalizeSpec;

    open spec fn deep_view(&self) -> FinalizeSpec {
        FinalizeSpec {
            checked: self.checked@,
            unchecked: self.unchecked@,
            params: self.params.deep_view(),
            receiver: self.receiver.deep_view(),
        }
    }
}

/// The finalize operations for these fields.
pub open spec fn finalize_of(fields: Seq<FieldSpec>) -> FinalizeSpec {
    FinalizeSpec {
        checked: "build"@,
        unchecked: "unsafe_build"@,
        params: buildable_params(fields),
        receiver: buildable_args(fields),
    }
}

/// The two operations go by different names: the unchecked one can never
/// stand in for the checked one unnoticed.
pub proof fn lemma_finalize_names_differ(fields: Seq<FieldSpec>)
    ensures
        finalize_of(fields).checked != finalize_of(fields).unchecked,
{
    reveal_strlit("build");
    reveal_strlit("unsafe_build");
    assert("build"@.len() == 5);
    assert("unsafe_build"@.len() == 12);
}

/// Emits the finalize operations.
pub fn emit_finalize(fields: &Vec<FieldDescription>) -> (r: Finalize)
    ensures
        r.deep_view() == finalize_of(fields.deep_view()),
{
    Finalize {
        checked: String::from_str("build"),
        unchecked: String::from_str("unsafe_build"),
        params: buildable_param_names(fields),
        receiver: buildable_arg_list(fields),
    }
}

} // verus!

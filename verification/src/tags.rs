//! The tag types: two markers without data for each field, one for "set"
//! and one for "unset". They differ in name only, which is all it takes to
//! make two instantiations of the builder distinct types.

use vstd::prelude::*;
use crate::model::{FieldDescription, FieldSpec};
use crate::text::join;

verus! {

/// The names of the two marker types of a field.
#[derive(Clone, Debug, PartialEq, Eq)]
pub struct FieldTagPair {
    pub set: String,
    pub unset: String,
}

/// The mathematical twin of [`FieldTagPair`].
pub struct FieldTagPairSpec {
    pub set: Seq<char>,
    pub unset: Seq<char>,
}

impl DeepView for FieldTagPair {
    type V = FieldTagPairSpec;

    open spec fn deep_view(&self) -> FieldTagPairSpec {
        FieldTagPairSpec { set: self.set@, unset: self.unset@ }
    }
}

/// The name of the marker for "set" of the field with this label.
pub open spec fn set_marker(label: Seq<char>) -> Seq<char> {
    label + "Set"@
}

/// The name of the marker for "unset" of the field with this label.
pub open spec fn unset_marker(label: Seq<char>) -> Seq<char> {
    label + "Unset"@
}

/// The marker names of one field.
pub open spec fn tag_pair(field: FieldSpec) -> FieldTagPairSpec {
    FieldTagPairSpec { set: set_marker(field.label), unset: unset_marker(field.label) }
}

/// The marker names of the fields, in their order.
pub open spec fn tag_pairs(fields: Seq<FieldSpec>) -> Seq<FieldTagPairSpec> {
    Seq::new(fields.len(), |i: int| tag_pair(fields[i]))
}

/// The two markers of a field never share a name.
pub proof fn lemma_markers_differ(label: Seq<char>)
    ensures
        set_marker(label) != unset_marker(label),
{
    reveal_strlit("Set");
    reveal_strlit("Unset");
    assert(set_marker(label).len() == label.len() + 3);
    assert(unset_marker(label).len() == label.len() + 5);
}

/// Names the marker for "set" of a field.
pub fn set_marker_name(field: &FieldDescription) -> (r: String)
    ensures
        r@ == set_marker(field.deep_view().label),
{
    join(field.label.as_str(), "Set")
}

/// Names the marker for "unset" of a field.
pub fn unset_marker_name(field: &FieldDescription) -> (r: String)
    ensures
        r@ == unset_marker(field.deep_view().label),
{
    join(field.label.as_str(), "Unset")
}

/// Names the two marker types of each field.
pub fn synthesize_tags(fields: &Vec<FieldDescription>) -> (r: Vec<FieldTagPair>)
    ensures
        r.deep_view() == tag_pairs(fields.deep_view()),
{
    let ghost fs = fields.deep_view();
    let mut out: Vec<FieldTagPair> = Vec::new();
    let mut i: usize = 0;
    while i < fields.len()
        invariant
            i <= fields.len(),
            fs == fields.deep_view(),
            out.len() == i,
            forall|j: int| 0 <= j < i ==> #[trigger] out[j].deep_view() == tag_pair(fs[j]),
        decreases fields.len() - i,
    {
        assert(fs[i as int] == fields[i as int].deep_view());
        let pair = FieldTagPair {
            set: set_marker_name(&fields[i]),
            unset: unset_marker_name(&fields[i]),
        };
        out.push(pair);
        i = i + 1;
    }
    assert(out.deep_view() =~= tag_pairs(fs));
    out
}

} // verus!

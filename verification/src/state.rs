//! A value of the builder type: the tags that name its type, and its
//! storage, one slot for each field of the record. The operations of a
//! family act on such values as the family declares them: an operation is
//! applied where the tags fit its pattern, and the tags of what it returns
//! are read off its result.

use vstd::prelude::*;
use crate::defaults::{DefaultWriteSpec, Initializer, InitializerSpec};
use crate::generate::FamilySpec;
use crate::typestate::{fits, substituted};

verus! {

/// A value of the builder type.
#[derive(Clone, Debug, PartialEq, Eq)]
pub struct BuilderValue {
    /// The tag arguments of its type: one marker for each field.
    pub tags: Vec<String>,
    /// Its storage: for each field what the slot was last written with, or
    /// nothing where it was never written.
    pub slots: Vec<Option<Initializer>>,
}

/// The mathematical twin of [`BuilderValue`].
pub struct ValueSpec {
    pub tags: Seq<Seq<char>>,
    pub slots: Seq<Option<InitializerSpec>>,
}

/// The mathematical twin of one slot.
pub open spec fn slot_view(slot: Option<Initializer>) -> Option<InitializerSpec> {
    match slot {
        Some(v) => Some(v.deep_view()),
        None => None,
    }
}

/// The mathematical twin of a storage.
pub open spec fn storage_view(slots: Seq<Option<Initializer>>) -> Seq<Option<InitializerSpec>> {
    Seq::new(slots.len(), |i: int| slot_view(slots[i]))
}

impl DeepView for BuilderValue {
    type V = ValueSpec;

    open spec fn deep_view(&self) -> ValueSpec {
        ValueSpec { tags: self.tags.deep_view(), slots: storage_view(self.slots@) }
    }
}

/// A storage of `n` slots, none of them written.
pub open spec fn unwritten(n: nat) -> Seq<Option<InitializerSpec>> {
    Seq::new(n, |i: int| None)
}

/// The storage after the writes were made, in their order.
pub open spec fn written(slots: Seq<Option<InitializerSpec>>, writes: Seq<DefaultWriteSpec>) -> Seq<
    Option<InitializerSpec>,
>
    decreases writes.len(),
{
    if writes.len() == 0 {
        slots
    } else {
        written(slots, writes.drop_last()).update(
            writes.last().field as int,
            Some(writes.last().value),
        )
    }
}

/// The builder that the creation returns: its tags are those that the
/// creation names, its storage holds what the defaults wrote.
pub open spec fn created(family: FamilySpec) -> ValueSpec {
    ValueSpec {
        tags: substituted(family.creation.builder_args, Seq::empty(), Seq::empty()),
        slots: written(unwritten(family.tags.len()), family.creation.defaults),
    }
}

/// Whether the setter of the field `i` is offered on a builder with these
/// tags.
pub open spec fn setter_offered(family: FamilySpec, tags: Seq<Seq<char>>, i: int) -> bool {
    0 <= i < family.setters.len() && fits(family.setters[i].receiver, tags)
}

/// The builder that the setter of the field `i` returns: the slot of the
/// field holds the value, the tags are those of the setter's result.
pub open spec fn after_set(family: FamilySpec, value: ValueSpec, i: int, v: InitializerSpec) -> ValueSpec {
    ValueSpec {
        tags: substituted(family.setters[i].result, family.setters[i].receiver, value.tags),
        slots: value.slots.update(i, Some(v)),
    }
}

/// The builder after a write through the raw address of the slot `i`: the
/// slot holds the value, the tags are as they were.
pub open spec fn after_raw_write(value: ValueSpec, i: int, v: InitializerSpec) -> ValueSpec {
    ValueSpec { tags: value.tags, slots: value.slots.update(i, Some(v)) }
}

/// The builder at the end of a chain of setter calls, each given by its
/// field and its value, or nothing where one of the calls is not offered on
/// the builder that it meets.
pub open spec fn run(family: FamilySpec, start: ValueSpec, calls: Seq<(int, InitializerSpec)>) -> Option<
    ValueSpec,
>
    decreases calls.len(),
{
    if calls.len() == 0 {
        Some(start)
    } else {
        match run(family, start, calls.drop_last()) {
            Some(value) => if setter_offered(family, value.tags, calls.last().0) {
                Some(after_set(family, value, calls.last().0, calls.last().1))
            } else {
                None
            },
            None => None,
        }
    }
}

/// Whether the checked finalize is offered on a builder with these tags.
pub open spec fn finalize_offered(family: FamilySpec, tags: Seq<Seq<char>>) -> bool {
    fits(family.finalize.receiver, tags)
}

/// Whether every slot was written.
pub open spec fn fully_written(slots: Seq<Option<InitializerSpec>>) -> bool {
    forall|i: int| 0 <= i < slots.len() ==> (#[trigger] slots[i]) is Some
}

/// The record that a fully written storage is read as.
pub open spec fn finalized(slots: Seq<Option<InitializerSpec>>) -> Seq<InitializerSpec> {
    Seq::new(slots.len(), |i: int| slots[i]->Some_0)
}

/// The record at the end of the expression that creates a builder, makes
/// the setter calls and ends in the checked finalize; nothing where the
/// expression is not well typed.
pub open spec fn built(family: FamilySpec, calls: Seq<(int, InitializerSpec)>) -> Option<
    Seq<InitializerSpec>,
> {
    match run(family, created(family), calls) {
        Some(value) => if finalize_offered(family, value.tags) {
            Some(finalized(value.slots))
        } else {
            None
        },
        None => None,
    }
}

/// A chain of which a beginning is not well typed is not well typed.
pub proof fn lemma_run_stays_refused(
    family: FamilySpec,
    start: ValueSpec,
    calls: Seq<(int, InitializerSpec)>,
    n: int,
)
    requires
        0 <= n <= calls.len(),
        run(family, start, calls.take(n)) is None,
    ensures
        run(family, start, calls) is None,
    decreases calls.len() - n,
{
    if n < calls.len() {
        assert(calls.take(n + 1).drop_last() =~= calls.take(n));
        lemma_run_stays_refused(family, start, calls, n + 1);
    } else {
        assert(calls.take(n) =~= calls);
    }
}

/// What ties the storage of a builder to its tags: it has one slot and one
/// tag for each field, and a slot was written where the tag is the marker
/// for "set" or the field has a default.
pub open spec fn coherent(family: FamilySpec, value: ValueSpec) -> bool {
    &&& value.tags.len() == family.tags.len()
    &&& value.slots.len() == family.tags.len()
    &&& forall|i: int|
        0 <= i < family.tags.len() && (value.tags[i] == family.tags[i].set
            || family.finalize.receiver[i] is Param) ==> (#[trigger] value.slots[i]) is Some
}

} // verus!

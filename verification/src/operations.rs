//! The operations of a family, carried out on builder values. A checked
//! operation asks of its caller what the compiler asks of a program:
//! that the tags of the builder fit the pattern on which the operation is
//! declared. The unchecked ones ask for nothing of the tags, and leave the
//! storage to the caller.

use vstd::prelude::*;
use crate::defaults::{lemma_default_writes_in_range, Initializer, InitializerSpec};
use crate::error::ErrorSpec;
use crate::generate::{generated, is_generated, BuilderFamily, FamilySpec};
use crate::generics::TagArg;
use crate::laws::{
    lemma_checked_finalize_is_sound, lemma_coherence_is_kept, lemma_created,
    lemma_setter_offered,
};
use crate::model::RecordSpec;
use crate::state::{
    after_raw_write, after_set, built, coherent, created, finalize_offered, finalized,
    fully_written, lemma_run_stays_refused, run, setter_offered, slot_view, storage_view,
    unwritten, written, BuilderValue,
};
use crate::typestate::{admits, scoped, substitute};

verus! {

/// A record that the family was generated for.
spec fn origin(family: FamilySpec) -> RecordSpec {
    choose|record: RecordSpec| #[trigger] generated(record) == Ok::<FamilySpec, ErrorSpec>(family)
}

/// The mathematical twin of a chain of setter calls.
pub open spec fn calls_view(calls: Seq<(usize, Initializer)>) -> Seq<(int, InitializerSpec)> {
    Seq::new(calls.len(), |c: int| (calls[c].0 as int, calls[c].1.deep_view()))
}

impl BuilderFamily {
    /// Creates a builder: every tag is the marker for "unset", and the
    /// fields with a default are written.
    pub fn create(&self) -> (value: BuilderValue)
        requires
            is_generated(self.deep_view()),
        ensures
            value.deep_view() == created(self.deep_view()),
            coherent(self.deep_view(), value.deep_view()),
    {
        let ghost family = self.deep_view();
        let ghost record = origin(family);
        proof {
            lemma_created(record);
            lemma_default_writes_in_range(record.fields);
            assert(scoped(family.creation.builder_args, Seq::empty()));
        }
        let none: Vec<TagArg> = Vec::new();
        let nothing: Vec<String> = Vec::new();
        assert(none.deep_view() =~= Seq::empty());
        assert(nothing.deep_view() =~= Seq::empty());
        let tags = substitute(&self.creation.builder_args, &none, &nothing);
        let mut slots: Vec<Option<Initializer>> = Vec::new();
        let mut i: usize = 0;
        while i < self.tags.len()
            invariant
                i <= self.tags.len(),
                slots.len() == i,
                forall|j: int| 0 <= j < i ==> (#[trigger] slots[j]) is None,
            decreases self.tags.len() - i,
        {
            slots.push(None);
            i = i + 1;
        }
        let ghost writes = family.creation.defaults;
        let ghost base = unwritten(family.tags.len());
        assert(storage_view(slots@) =~= base);
        assert(writes.take(0) =~= Seq::empty());
        let mut n: usize = 0;
        while n < self.creation.defaults.len()
            invariant
                n <= self.creation.defaults.len(),
                family == self.deep_view(),
                writes == family.creation.defaults,
                base == unwritten(family.tags.len()),
                slots.len() == family.tags.len(),
                forall|m: int| 0 <= m < writes.len() ==> (#[trigger] writes[m]).field < slots.len(),
                storage_view(slots@) == written(base, writes.take(n as int)),
            decreases self.creation.defaults.len() - n,
        {
            let write = &self.creation.defaults[n];
            proof {
                assert(writes[n as int] == write.deep_view());
                let next = writes.take(n + 1);
                assert(next.drop_last() =~= writes.take(n as int));
                assert(next.last() == writes[n as int]);
            }
            let ghost before = storage_view(slots@);
            slots.set(write.field, Some(write.value.duplicate()));
            assert(storage_view(slots@) =~= before.update(
                write.field as int,
                Some(write.value.deep_view()),
            ));
            n = n + 1;
        }
        assert(writes.take(n as int) =~= writes);
        BuilderValue { tags, slots }
    }

    /// Decides whether the setter of the field `i` is offered on the
    /// builder.
    pub fn offers_setter(&self, value: &BuilderValue, i: usize) -> (r: bool)
        ensures
            r == setter_offered(self.deep_view(), value.deep_view().tags, i as int),
    {
        if i >= self.setters.len() {
            return false;
        }
        assert(self.deep_view().setters[i as int] == self.setters[i as int].deep_view());
        admits(&self.setters[i].receiver, &value.tags)
    }

    /// Sets the field `i`: consumes the builder and returns the one whose
    /// slot for the field holds `v` and whose tag for the field is the
    /// marker for "set".
    pub fn set(&self, value: BuilderValue, i: usize, v: Initializer) -> (r: BuilderValue)
        requires
            is_generated(self.deep_view()),
            coherent(self.deep_view(), value.deep_view()),
            setter_offered(self.deep_view(), value.deep_view().tags, i as int),
        ensures
            r.deep_view() == after_set(self.deep_view(), value.deep_view(), i as int, v.deep_view()),
            coherent(self.deep_view(), r.deep_view()),
    {
        let ghost family = self.deep_view();
        let ghost record = origin(family);
        let ghost before = value.deep_view();
        proof {
            lemma_setter_offered(record, i as int, before.tags);
            lemma_coherence_is_kept(record, before, i as int, v.deep_view());
            assert(family.setters[i as int] == self.setters[i as int].deep_view());
        }
        let setter = &self.setters[i];
        let tags = substitute(&setter.result, &setter.receiver, &value.tags);
        let mut slots = value.slots;
        slots.set(i, Some(v));
        assert(storage_view(slots@) =~= before.slots.update(i as int, Some(v.deep_view())));
        BuilderValue { tags, slots }
    }

    /// Decides whether the checked finalize is offered on the builder.
    pub fn offers_finalize(&self, value: &BuilderValue) -> (r: bool)
        ensures
            r == finalize_offered(self.deep_view(), value.deep_view().tags),
    {
        admits(&self.finalize.receiver, &value.tags)
    }

    /// The checked finalize: consumes the builder and reads its storage as
    /// the record. Every slot was written, by what the tags say.
    pub fn finalize(&self, value: BuilderValue) -> (r: Vec<Initializer>)
        requires
            is_generated(self.deep_view()),
            coherent(self.deep_view(), value.deep_view()),
            finalize_offered(self.deep_view(), value.deep_view().tags),
        ensures
            r.deep_view() == finalized(value.deep_view().slots),
    {
        proof {
            lemma_checked_finalize_is_sound(origin(self.deep_view()), value.deep_view());
        }
        value.unchecked_finalize()
    }

    /// Makes the setter calls of a chain on a new builder, each given by
    /// its field and its value. Nothing comes back where one of the calls
    /// is not offered on the builder that it meets.
    pub fn run(&self, calls: &Vec<(usize, Initializer)>) -> (r: Option<BuilderValue>)
        requires
            is_generated(self.deep_view()),
        ensures
            match r {
                Some(value) => run(
                    self.deep_view(),
                    created(self.deep_view()),
                    calls_view(calls@),
                ) == Some(value.deep_view()) && coherent(self.deep_view(), value.deep_view()),
                None => run(self.deep_view(), created(self.deep_view()), calls_view(calls@))
                    is None,
            },
    {
        let ghost family = self.deep_view();
        let ghost chain = calls_view(calls@);
        let mut value = self.create();
        let mut n: usize = 0;
        assert(chain.take(0) =~= Seq::empty());
        while n < calls.len()
            invariant
                n <= calls.len(),
                family == self.deep_view(),
                is_generated(family),
                chain == calls_view(calls@),
                run(family, created(family), chain.take(n as int)) == Some(value.deep_view()),
                coherent(family, value.deep_view()),
            decreases calls.len() - n,
        {
            let i = calls[n].0;
            proof {
                let next = chain.take(n + 1);
                assert(next.drop_last() =~= chain.take(n as int));
                assert(next.last() == chain[n as int]);
            }
            if !self.offers_setter(&value, i) {
                proof {
                    lemma_run_stays_refused(family, created(family), chain, n + 1);
                }
                return None;
            }
            value = self.set(value, i, calls[n].1.duplicate());
            n = n + 1;
        }
        assert(chain.take(n as int) =~= chain);
        Some(value)
    }

    /// Carries out the expression that creates a builder, makes the setter
    /// calls and ends in the checked finalize. Nothing comes back where the
    /// expression is not well typed.
    pub fn build(&self, calls: &Vec<(usize, Initializer)>) -> (r: Option<Vec<Initializer>>)
        requires
            is_generated(self.deep_view()),
        ensures
            match r {
                Some(record) => built(self.deep_view(), calls_view(calls@)) == Some(
                    record.deep_view(),
                ),
                None => built(self.deep_view(), calls_view(calls@)) is None,
            },
    {
        match self.run(calls) {
            Some(value) => {
                if self.offers_finalize(&value) {
                    Some(self.finalize(value))
                } else {
                    None
                }
            },
            None => None,
        }
    }
}

impl BuilderValue {
    /// Writes `v` through the raw address of the slot `i`. The tags do not
    /// change: the type of the builder does not record the write.
    pub fn write_raw(&mut self, i: usize, v: Initializer)
        requires
            i < old(self).slots.len(),
        ensures
            final(self).deep_view() == after_raw_write(
                old(self).deep_view(),
                i as int,
                v.deep_view(),
            ),
            forall|family: FamilySpec|
                coherent(family, old(self).deep_view()) ==> #[trigger] coherent(
                    family,
                    final(self).deep_view(),
                ),
    {
        let ghost before = self.deep_view();
        self.slots.set(i, Some(v));
        assert(storage_view(self.slots@) =~= before.slots.update(i as int, Some(v.deep_view())));
    }

    /// The unchecked finalize: consumes the builder and reads its storage
    /// as the record, whatever the tags. That every slot was written is for
    /// the caller to see to.
    pub fn unchecked_finalize(self) -> (r: Vec<Initializer>)
        requires
            fully_written(self.deep_view().slots),
        ensures
            r.deep_view() == finalized(self.deep_view().slots),
    {
        let ghost slots = self.deep_view().slots;
        let mut out: Vec<Initializer> = Vec::new();
        let mut i: usize = 0;
        while i < self.slots.len()
            invariant
                i <= self.slots.len(),
                slots == storage_view(self.slots@),
                fully_written(slots),
                out.len() == i,
                forall|j: int| 0 <= j < i ==> Some(#[trigger] out[j].deep_view()) == slots[j],
            decreases self.slots.len() - i,
        {
            assert(slots[i as int] is Some);
            assert(slots[i as int] == slot_view(self.slots[i as int]));
            match &self.slots[i] {
                Some(v) => {
                    out.push(v.duplicate());
                },
                None => {},
            }
            i = i + 1;
        }
        assert(out.deep_view() =~= finalized(slots));
        out
    }

    /// Hands out the storage as it is, written or not.
    pub fn raw_storage(self) -> (r: Vec<Option<Initializer>>)
        ensures
            storage_view(r@) == self.deep_view().slots,
    {
        self.slots
    }
}

} // verus!

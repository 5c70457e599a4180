//! What holds of every generated family: on which builders its operations
//! are offered, and what a chain of setter calls leads to.

use vstd::prelude::*;
use crate::defaults::{default_writes, initial_value, InitializerSpec};
use crate::finalize::finalize_of;
use crate::generate::{family_of, generated_names, unset_markers};
use crate::generics::{buildable_params, tag_param, tag_params, usage, TagArgSpec};
use crate::model::{FieldSpec, RecordSpec};
use crate::search::{is_least, least, lemma_least};
use crate::setters::setters_of;
use crate::state::{
    after_raw_write, after_set, built, coherent, created, finalize_offered, finalized,
    fully_written, run, setter_offered, unwritten, written, ValueSpec,
};
use crate::tags::{lemma_markers_differ, set_marker, unset_marker};
use crate::typestate::{
    first_slot, fits, holds_param, scoped, slot_fits, substituted, substituted_slot,
};

verus! {

/// Where the generated names of a record are distinct, so are its tag
/// parameters.
pub proof fn lemma_tag_params_distinct(record: RecordSpec)
    requires
        generated_names(record).no_duplicates(),
    ensures
        tag_params(record.fields).no_duplicates(),
{
    let names = generated_names(record);
    let params = tag_params(record.fields);
    let offset = 2 + usage(record.generics).len();
    assert forall|a: int, b: int| 0 <= a < params.len() && 0 <= b < params.len() && a != b implies params[a]
        != params[b] by {
        assert(names[offset + a] == params[a]);
        assert(names[offset + b] == params[b]);
    }
}

/// Where the generated names of a record are distinct, no two markers share
/// a name, and no marker goes by the name of a tag parameter.
pub proof fn lemma_markers_distinct(record: RecordSpec, i: int, j: int)
    requires
        generated_names(record).no_duplicates(),
        0 <= i < record.fields.len(),
        0 <= j < record.fields.len(),
    ensures
        i != j ==> set_marker(record.fields[i].label) != set_marker(record.fields[j].label),
        i != j ==> unset_marker(record.fields[i].label) != unset_marker(record.fields[j].label),
        set_marker(record.fields[i].label) != unset_marker(record.fields[j].label),
        set_marker(record.fields[i].label) != tag_param(record.fields[j]),
        unset_marker(record.fields[i].label) != tag_param(record.fields[j]),
{
    let names = generated_names(record);
    let k = record.fields.len();
    let offset = 2 + usage(record.generics).len();
    assert(names[offset + j] == tag_param(record.fields[j]));
    assert(names[offset + k + i] == set_marker(record.fields[i].label));
    assert(names[offset + k + j] == set_marker(record.fields[j].label));
    assert(names[offset + 2 * k + i] == unset_marker(record.fields[i].label));
    assert(names[offset + 2 * k + j] == unset_marker(record.fields[j].label));
}

/// Whether every parameter of the pattern is the tag parameter of the
/// field in whose slot it stands.
pub open spec fn params_in_own_slots(pattern: Seq<TagArgSpec>, fields: Seq<FieldSpec>) -> bool {
    &&& pattern.len() == fields.len()
    &&& forall|j: int|
        0 <= j < pattern.len() ==> (#[trigger] pattern[j] matches TagArgSpec::Param(p) ==> p
            == tag_param(fields[j]))
}

/// In a pattern whose parameters stand in their own slots, a parameter is
/// bound by the slot in which it stands.
pub proof fn lemma_bound_in_own_slot(pattern: Seq<TagArgSpec>, fields: Seq<FieldSpec>, j: int)
    requires
        params_in_own_slots(pattern, fields),
        tag_params(fields).no_duplicates(),
        0 <= j < pattern.len(),
        pattern[j] is Param,
    ensures
        first_slot(pattern, tag_param(fields[j])) == j,
{
    let p = holds_param(pattern, tag_param(fields[j]));
    let params = tag_params(fields);
    assert(p(j));
    assert forall|l: int| 0 <= l < j implies !#[trigger] p(l) by {
        if p(l) {
            assert(pattern[l] is Param);
            assert(params[l] == params[j]);
        }
    }
    assert(is_least(j, 0, pattern.len() as int, p));
    lemma_least(j, 0, pattern.len() as int, p);
}

/// Whether an operation that is generic in `params` and declared on
/// `pattern` is well formed: every parameter of the pattern is one of
/// `params`, and each of `params` occurs in the pattern.
pub open spec fn closed(params: Seq<Seq<char>>, pattern: Seq<TagArgSpec>) -> bool {
    &&& forall|j: int|
        0 <= j < pattern.len() ==> (#[trigger] pattern[j] matches TagArgSpec::Param(p)
            ==> params.contains(p))
    &&& forall|m: int|
        0 <= m < params.len() ==> pattern.contains(TagArgSpec::Param(#[trigger] params[m]))
}

/// Whether `p` is the tag parameter of the field `j`, and the field has a
/// default.
spec fn is_default_param(fields: Seq<FieldSpec>, j: int, p: Seq<char>) -> bool {
    0 <= j < fields.len() && fields[j].has_default() && tag_param(fields[j]) == p
}

/// Whether `p` is the tag parameter of a field with a default.
spec fn is_some_default_param(fields: Seq<FieldSpec>, p: Seq<char>) -> bool {
    exists|j: int| is_default_param(fields, j, p)
}

/// The tag parameters under which the checked finalize is declared are
/// those of the fields with a default.
proof fn lemma_buildable_params(fields: Seq<FieldSpec>)
    ensures
        forall|j: int|
            0 <= j < fields.len() && (#[trigger] fields[j]).has_default() ==> buildable_params(
                fields,
            ).contains(tag_param(fields[j])),
        forall|m: int|
            0 <= m < buildable_params(fields).len() ==> is_some_default_param(
                fields,
                #[trigger] buildable_params(fields)[m],
            ),
    decreases fields.len(),
{
    if fields.len() > 0 {
        let earlier = fields.drop_last();
        let last = fields.len() - 1;
        lemma_buildable_params(earlier);
        let params = buildable_params(fields);
        let before = buildable_params(earlier);
        assert forall|j: int| 0 <= j < fields.len() && (#[trigger] fields[j]).has_default() implies params.contains(
            tag_param(fields[j]),
        ) by {
            if j < last {
                assert(earlier[j] == fields[j]);
                assert(before.contains(tag_param(earlier[j])));
                let m = choose|m: int| 0 <= m < before.len() && before[m] == tag_param(earlier[j]);
                assert(params[m] == tag_param(fields[j]));
            } else {
                assert(params[params.len() - 1] == tag_param(fields[j]));
            }
        }
        assert forall|m: int| 0 <= m < params.len() implies is_some_default_param(
            fields,
            #[trigger] params[m],
        ) by {
            if m < before.len() {
                assert(params[m] == before[m]);
                assert(is_some_default_param(earlier, before[m]));
                let j = choose|j: int| is_default_param(earlier, j, before[m]);
                assert(earlier[j] == fields[j]);
                assert(is_default_param(fields, j, params[m]));
            } else {
                assert(is_default_param(fields, last, params[m]));
            }
        }
    }
}

/// Every operation of a generated family is well formed: it is generic in
/// exactly the parameters that its pattern holds.
pub proof fn lemma_operations_closed(record: RecordSpec, i: int)
    requires
        0 <= i < record.fields.len(),
    ensures
        closed(setters_of(record.fields)[i].params, setters_of(record.fields)[i].receiver),
        closed(finalize_of(record.fields).params, finalize_of(record.fields).receiver),
{
    let fields = record.fields;
    let setter = setters_of(fields)[i];
    let all = tag_params(fields);
    assert forall|j: int| 0 <= j < setter.receiver.len() implies (
    #[trigger] setter.receiver[j] matches TagArgSpec::Param(p) ==> setter.params.contains(p)) by {
        if j != i {
            let m = if j < i { j } else { j - 1 };
            assert(setter.params[m] == all[j]);
        }
    }
    assert forall|m: int| 0 <= m < setter.params.len() implies setter.receiver.contains(
        TagArgSpec::Param(#[trigger] setter.params[m]),
    ) by {
        let j = if m < i { m } else { m + 1 };
        assert(setter.receiver[j] == TagArgSpec::Param(setter.params[m]));
    }
    lemma_buildable_params(fields);
    let finalize = finalize_of(fields);
    assert forall|j: int| 0 <= j < finalize.receiver.len() implies (
    #[trigger] finalize.receiver[j] matches TagArgSpec::Param(p) ==> finalize.params.contains(p)) by {
        if fields[j].has_default() {
            assert(finalize.params.contains(tag_param(fields[j])));
        }
    }
    assert forall|m: int| 0 <= m < finalize.params.len() implies finalize.receiver.contains(
        TagArgSpec::Param(#[trigger] finalize.params[m]),
    ) by {
        assert(is_some_default_param(fields, finalize.params[m]));
        let j = choose|j: int| is_default_param(fields, j, finalize.params[m]);
        assert(finalize.receiver[j] == TagArgSpec::Param(finalize.params[m]));
    }
}

/// A setter is offered exactly on the builders whose tag for its field is
/// the marker for "unset", whatever the other tags are. It returns the
/// builder that differs in that one tag, which becomes the marker for
/// "set".
pub proof fn lemma_setter_offered(record: RecordSpec, i: int, inst: Seq<Seq<char>>)
    requires
        generated_names(record).no_duplicates(),
        0 <= i < record.fields.len(),
    ensures
        ({
            let setter = setters_of(record.fields)[i];
            let label = record.fields[i].label;
            &&& fits(setter.receiver, inst) <==> inst.len() == record.fields.len() && inst[i]
                == unset_marker(label)
            &&& scoped(setter.result, setter.receiver)
            &&& fits(setter.receiver, inst) ==> substituted(
                setter.result,
                setter.receiver,
                inst,
            ) == inst.update(i, set_marker(label))
        }),
{
    let fields = record.fields;
    let setter = setters_of(fields)[i];
    let label = fields[i].label;
    let receiver = setter.receiver;
    let result = setter.result;
    lemma_tag_params_distinct(record);
    assert(params_in_own_slots(receiver, fields));
    assert forall|j: int| 0 <= j < fields.len() && j != i implies first_slot(
        receiver,
        tag_param(fields[j]),
    ) == j by {
        lemma_bound_in_own_slot(receiver, fields, j);
    }
    assert(scoped(result, receiver)) by {
        assert forall|j: int| 0 <= j < result.len() implies (#[trigger] result[j] matches TagArgSpec::Param(
            p,
        ) ==> first_slot(receiver, p) < receiver.len()) by {
            if j != i {
                assert(first_slot(receiver, tag_param(fields[j])) == j);
            }
        }
    }
    if inst.len() == fields.len() && inst[i] == unset_marker(label) {
        assert forall|j: int| 0 <= j < receiver.len() implies slot_fits(receiver, inst, j) by {
            if j != i {
                assert(first_slot(receiver, tag_param(fields[j])) == j);
            }
        }
    }
    if fits(receiver, inst) {
        assert(slot_fits(receiver, inst, i));
        assert forall|j: int| 0 <= j < fields.len() implies #[trigger] substituted(
            result,
            receiver,
            inst,
        )[j] == inst.update(i, set_marker(label))[j] by {
            assert(substituted(result, receiver, inst)[j] == substituted_slot(
                result,
                receiver,
                inst,
                j,
            ));
            if j != i {
                assert(first_slot(receiver, tag_param(fields[j])) == j);
            }
        }
        assert(substituted(result, receiver, inst) =~= inst.update(i, set_marker(label)));
    }
}

/// The checked finalize is offered exactly on the builders in which every
/// field without a default has its marker for "set". The tags of the fields
/// with a default are free.
pub proof fn lemma_finalize_offered(record: RecordSpec, inst: Seq<Seq<char>>)
    requires
        generated_names(record).no_duplicates(),
    ensures
        fits(finalize_of(record.fields).receiver, inst) <==> inst.len() == record.fields.len()
            && forall|i: int|
            0 <= i < record.fields.len() && !record.fields[i].has_default() ==> #[trigger] inst[i]
                == set_marker(record.fields[i].label),
{
    let fields = record.fields;
    let receiver = finalize_of(fields).receiver;
    lemma_tag_params_distinct(record);
    assert(params_in_own_slots(receiver, fields));
    assert forall|j: int| 0 <= j < fields.len() && fields[j].has_default() implies first_slot(
        receiver,
        tag_param(fields[j]),
    ) == j by {
        lemma_bound_in_own_slot(receiver, fields, j);
    }
    if fits(receiver, inst) {
        assert forall|i: int| 0 <= i < fields.len() && !fields[i].has_default() implies #[trigger] inst[i]
            == set_marker(fields[i].label) by {
            assert(slot_fits(receiver, inst, i));
        }
    }
    if inst.len() == fields.len() && forall|i: int|
        0 <= i < fields.len() && !fields[i].has_default() ==> #[trigger] inst[i] == set_marker(
            fields[i].label,
        ) {
        assert forall|j: int| 0 <= j < receiver.len() implies slot_fits(receiver, inst, j) by {
            if fields[j].has_default() {
                assert(first_slot(receiver, tag_param(fields[j])) == j);
            } else {
                assert(inst[j] == set_marker(fields[j].label));
            }
        }
    }
}

/// What the fields start with: for each field what its policy names, or
/// nothing where it has no default.
pub open spec fn initial_slots(fields: Seq<FieldSpec>) -> Seq<Option<InitializerSpec>> {
    Seq::new(fields.len(), |i: int| initial_value(fields[i].default))
}

/// The writes for the first `n` fields fill the slots of those among them
/// that have a default, and touch no other slot.
proof fn lemma_written_defaults(fields: Seq<FieldSpec>, n: int)
    requires
        0 <= n <= fields.len(),
    ensures
        written(unwritten(fields.len()), default_writes(fields.take(n))) == Seq::new(
            fields.len(),
            |i: int|
                if i < n {
                    initial_value(fields[i].default)
                } else {
                    None
                },
        ),
    decreases n,
{
    let base = unwritten(fields.len());
    let prefix = fields.take(n);
    let expected = Seq::new(
        fields.len(),
        |i: int|
            if i < n {
                initial_value(fields[i].default)
            } else {
                None
            },
    );
    if n == 0 {
        assert(written(base, default_writes(prefix)) =~= expected);
    } else {
        lemma_written_defaults(fields, n - 1);
        assert(prefix.drop_last() =~= fields.take(n - 1));
        assert(prefix.last() == fields[n - 1]);
        let earlier = default_writes(fields.take(n - 1));
        match initial_value(fields[n - 1].default) {
            Some(value) => {
                let writes = default_writes(prefix);
                assert(writes.drop_last() =~= earlier);
                assert(writes.last().field == n - 1);
                assert(written(base, writes) =~= expected);
            },
            None => {
                assert(written(base, default_writes(prefix)) =~= expected);
            },
        }
    }
}

/// A new builder has every tag at its marker for "unset", and its storage
/// holds the default of each field that has one and nothing else. It is
/// coherent.
pub proof fn lemma_created(record: RecordSpec)
    requires
        generated_names(record).no_duplicates(),
    ensures
        created(family_of(record)).tags == unset_markers(record.fields),
        created(family_of(record)).slots == initial_slots(record.fields),
        coherent(family_of(record), created(family_of(record))),
{
    let family = family_of(record);
    let fields = record.fields;
    lemma_written_defaults(fields, fields.len() as int);
    assert(fields.take(fields.len() as int) =~= fields);
    assert(created(family).slots =~= initial_slots(fields));
    assert(created(family).tags =~= unset_markers(fields));
    assert forall|i: int| 0 <= i < fields.len() implies (created(family).tags[i]
        != family.tags[i].set) by {
        lemma_markers_differ(fields[i].label);
    }
}

/// The setter of a field and a write through the raw address of a slot
/// keep a coherent builder coherent.
pub proof fn lemma_coherence_is_kept(record: RecordSpec, value: ValueSpec, i: int, v: InitializerSpec)
    requires
        generated_names(record).no_duplicates(),
        coherent(family_of(record), value),
        0 <= i < record.fields.len(),
    ensures
        coherent(family_of(record), after_raw_write(value, i, v)),
        setter_offered(family_of(record), value.tags, i) ==> coherent(
            family_of(record),
            after_set(family_of(record), value, i, v),
        ),
{
    lemma_setter_offered(record, i, value.tags);
}

/// The checked finalize reads no slot that was never written: on a
/// coherent builder on which it is offered, the storage is fully written.
pub proof fn lemma_checked_finalize_is_sound(record: RecordSpec, value: ValueSpec)
    requires
        generated_names(record).no_duplicates(),
        coherent(family_of(record), value),
        finalize_offered(family_of(record), value.tags),
    ensures
        fully_written(value.slots),
{
    lemma_finalize_offered(record, value.tags);
    let family = family_of(record);
    assert forall|i: int| 0 <= i < value.slots.len() implies (#[trigger] value.slots[i]) is Some by {
        if !record.fields[i].has_default() {
            assert(value.tags[i] == set_marker(record.fields[i].label));
        } else {
            assert(family.finalize.receiver[i] is Param);
        }
    }
}

/// At which places of a chain the setter of the field `i` is called.
pub open spec fn calls_field(calls: Seq<(int, InitializerSpec)>, i: int) -> spec_fn(int) -> bool {
    |c: int| calls[c].0 == i
}

/// The place of the first call of the setter of the field `i`, or the
/// length of the chain where it is never called.
pub open spec fn call_of(calls: Seq<(int, InitializerSpec)>, i: int) -> int {
    least(0, calls.len() as int, calls_field(calls, i))
}

/// Whether the setter of the field `i` is called in the chain.
pub open spec fn called(calls: Seq<(int, InitializerSpec)>, i: int) -> bool {
    call_of(calls, i) < calls.len()
}

/// Whether the chain calls setters of the `k` fields only, and none of
/// them twice.
pub open spec fn each_once(calls: Seq<(int, InitializerSpec)>, k: nat) -> bool {
    &&& forall|c: int| 0 <= c < calls.len() ==> 0 <= (#[trigger] calls[c]).0 < k
    &&& forall|c: int, d: int|
        0 <= c < calls.len() && 0 <= d < calls.len() && c != d ==> (#[trigger] calls[c]).0 != (
        #[trigger] calls[d]).0
}

/// The builder that a chain of setter calls leads to from a new builder:
/// the fields whose setter was called have their marker for "set" and the
/// value of the call, the others their marker for "unset" and what they
/// started with.
pub open spec fn reached(record: RecordSpec, calls: Seq<(int, InitializerSpec)>) -> ValueSpec {
    ValueSpec {
        tags: Seq::new(
            record.fields.len(),
            |i: int|
                if called(calls, i) {
                    set_marker(record.fields[i].label)
                } else {
                    unset_marker(record.fields[i].label)
                },
        ),
        slots: Seq::new(
            record.fields.len(),
            |i: int|
                if called(calls, i) {
                    Some(calls[call_of(calls, i)].1)
                } else {
                    initial_value(record.fields[i].default)
                },
        ),
    }
}

/// The first call of a setter is a call of it, none comes before it, and a
/// setter that is called at all has a first call.
pub proof fn lemma_call_of(calls: Seq<(int, InitializerSpec)>, i: int)
    ensures
        0 <= call_of(calls, i) <= calls.len(),
        called(calls, i) ==> calls[call_of(calls, i)].0 == i,
        forall|c: int| 0 <= c < call_of(calls, i) ==> (#[trigger] calls[c]).0 != i,
        forall|c: int| 0 <= c < calls.len() && (#[trigger] calls[c]).0 == i ==> called(calls, i),
{
    let p = calls_field(calls, i);
    lemma_least(0, 0, calls.len() as int, p);
    let first = call_of(calls, i);
    assert forall|c: int| 0 <= c < first implies (#[trigger] calls[c]).0 != i by {
        assert(!p(c));
    }
    assert forall|c: int| 0 <= c < calls.len() && (#[trigger] calls[c]).0 == i implies called(
        calls,
        i,
    ) by {
        if first >= calls.len() {
            assert(!p(c));
        }
    }
}

/// How one more call at the end of a chain changes the first call of each
/// setter.
proof fn lemma_call_of_longer(calls: Seq<(int, InitializerSpec)>, j: int)
    requires
        calls.len() > 0,
    ensures
        called(calls.drop_last(), j) ==> call_of(calls, j) == call_of(calls.drop_last(), j),
        !called(calls.drop_last(), j) && calls.last().0 == j ==> call_of(calls, j) == calls.len()
            - 1,
        !called(calls.drop_last(), j) && calls.last().0 != j ==> !called(calls, j),
{
    let earlier = calls.drop_last();
    lemma_call_of(earlier, j);
    lemma_call_of(calls, j);
    let p = calls_field(calls, j);
    let first = call_of(earlier, j);
    assert forall|c: int| 0 <= c < first implies !#[trigger] p(c) by {
        assert(earlier[c] == calls[c]);
        assert(earlier[c].0 != j);
    }
    if called(earlier, j) {
        assert(earlier[first] == calls[first]);
        assert(p(first));
        assert(is_least(first, 0, calls.len() as int, p));
        lemma_least(first, 0, calls.len() as int, p);
    } else if calls.last().0 == j {
        assert(p(calls.len() - 1));
        assert(is_least(calls.len() - 1, 0, calls.len() as int, p));
        lemma_least(calls.len() - 1, 0, calls.len() as int, p);
    } else {
        assert(!p(calls.len() - 1));
        assert forall|c: int| 0 <= c < calls.len() implies !#[trigger] p(c) by {
            if c < calls.len() - 1 {
                assert(earlier[c] == calls[c]);
            }
        }
        assert(is_least(calls.len() as int, 0, calls.len() as int, p));
        lemma_least(calls.len() as int, 0, calls.len() as int, p);
    }
}

/// Setters compose in any order: a chain that calls no setter twice is
/// well typed from a new builder, call by call, and leads to the builder in
/// which exactly the fields it names are set, each to the value of its
/// call. A chain that calls a setter twice, or one of no field, is not well
/// typed.
pub proof fn lemma_chain(record: RecordSpec, calls: Seq<(int, InitializerSpec)>)
    requires
        generated_names(record).no_duplicates(),
    ensures
        each_once(calls, record.fields.len()) <==> run(
            family_of(record),
            created(family_of(record)),
            calls,
        ) is Some,
        each_once(calls, record.fields.len()) ==> run(
            family_of(record),
            created(family_of(record)),
            calls,
        ) == Some(reached(record, calls)),
    decreases calls.len(),
{
    let family = family_of(record);
    let fields = record.fields;
    let k = fields.len();
    let start = created(family);
    if calls.len() == 0 {
        lemma_created(record);
        assert forall|i: int| 0 <= i < k implies !called(calls, i) by {
            lemma_call_of(calls, i);
        }
        assert(reached(record, calls).tags =~= start.tags);
        assert(reached(record, calls).slots =~= start.slots);
    } else {
        let earlier = calls.drop_last();
        let i = calls.last().0;
        let v = calls.last().1;
        lemma_chain(record, earlier);
        assert forall|c: int| 0 <= c < earlier.len() implies earlier[c] == calls[c] by {}
        if each_once(calls, k) {
            assert(each_once(earlier, k)) by {
                assert forall|c: int| 0 <= c < earlier.len() implies 0 <= (#[trigger] earlier[c]).0
                    < k by {
                    assert(earlier[c] == calls[c]);
                }
                assert forall|c: int, d: int|
                    0 <= c < earlier.len() && 0 <= d < earlier.len() && c != d implies (
                #[trigger] earlier[c]).0 != (#[trigger] earlier[d]).0 by {
                    assert(earlier[c] == calls[c]);
                    assert(earlier[d] == calls[d]);
                }
            }
            let before = reached(record, earlier);
            assert(calls[calls.len() - 1].0 == i);
            assert(0 <= i < k);
            lemma_call_of(earlier, i);
            if called(earlier, i) {
                let c = call_of(earlier, i);
                assert(earlier[c] == calls[c]);
                assert(calls[c].0 == calls[calls.len() - 1].0);
                assert(false);
            }
            lemma_setter_offered(record, i, before.tags);
            assert(setter_offered(family, before.tags, i));
            let after = after_set(family, before, i, v);
            assert forall|j: int| 0 <= j < k implies after.tags[j] == reached(record, calls).tags[j]
                && after.slots[j] == reached(record, calls).slots[j] by {
                lemma_call_of_longer(calls, j);
                lemma_call_of(earlier, j);
                if called(earlier, j) {
                    assert(earlier[call_of(earlier, j)] == calls[call_of(earlier, j)]);
                }
            }
            assert(after.tags =~= reached(record, calls).tags);
            assert(after.slots =~= reached(record, calls).slots);
        }
        if run(family, start, calls) is Some {
            let before = reached(record, earlier);
            assert(run(family, start, earlier) == Some(before));
            assert(setter_offered(family, before.tags, i));
            lemma_setter_offered(record, i, before.tags);
            lemma_markers_differ(fields[i].label);
            assert(!called(earlier, i));
            lemma_call_of(earlier, i);
            assert(each_once(calls, k)) by {
                assert forall|c: int| 0 <= c < calls.len() implies 0 <= (#[trigger] calls[c]).0
                    < k by {
                    if c < earlier.len() {
                        assert(earlier[c] == calls[c]);
                    }
                }
                assert forall|c: int, d: int|
                    0 <= c < calls.len() && 0 <= d < calls.len() && c != d implies (
                #[trigger] calls[c]).0 != (#[trigger] calls[d]).0 by {
                    if c < earlier.len() && d < earlier.len() {
                        assert(earlier[c] == calls[c]);
                        assert(earlier[d] == calls[d]);
                    } else if c < earlier.len() {
                        assert(earlier[c] == calls[c]);
                        assert(earlier[c].0 != i);
                    } else {
                        assert(earlier[d] == calls[d]);
                        assert(earlier[d].0 != i);
                    }
                }
            }
        }
    }
}

/// Whatever the order of the setter calls, the checked finalize is offered
/// at the end of a chain exactly if the chain has set every field without a
/// default. Leaving out the setter of one such field leaves the finalize
/// out of reach.
pub proof fn lemma_finalize_after_chain(record: RecordSpec, calls: Seq<(int, InitializerSpec)>)
    requires
        generated_names(record).no_duplicates(),
        each_once(calls, record.fields.len()),
    ensures
        run(family_of(record), created(family_of(record)), calls) == Some(reached(record, calls)),
        finalize_offered(family_of(record), reached(record, calls).tags) <==> forall|i: int|
            0 <= i < record.fields.len() && !(#[trigger] record.fields[i]).has_default()
                ==> called(calls, i),
{
    let fields = record.fields;
    let tags = reached(record, calls).tags;
    lemma_chain(record, calls);
    lemma_finalize_offered(record, tags);
    if finalize_offered(family_of(record), tags) {
        assert forall|i: int| 0 <= i < fields.len() && !(#[trigger] fields[i]).has_default() implies called(
            calls,
            i,
        ) by {
            assert(tags[i] == set_marker(fields[i].label));
            lemma_markers_differ(fields[i].label);
        }
    }
    if forall|i: int|
        0 <= i < fields.len() && !(#[trigger] fields[i]).has_default() ==> called(calls, i) {
        assert forall|i: int| 0 <= i < fields.len() && !fields[i].has_default() implies #[trigger] tags[i]
            == set_marker(fields[i].label) by {
            assert(called(calls, i));
        }
    }
}

/// On a new builder the checked finalize is offered exactly if every field
/// has a default, and the record that it then yields holds the default of
/// each field.
pub proof fn lemma_finalize_on_creation(record: RecordSpec)
    requires
        generated_names(record).no_duplicates(),
    ensures
        finalize_offered(family_of(record), created(family_of(record)).tags) <==> forall|i: int|
            0 <= i < record.fields.len() ==> (#[trigger] record.fields[i]).has_default(),
        forall|i: int|
            0 <= i < record.fields.len() && (#[trigger] record.fields[i]).has_default() ==> Some(
                finalized(created(family_of(record)).slots)[i],
            ) == initial_value(record.fields[i].default),
{
    let fields = record.fields;
    let start = created(family_of(record));
    lemma_created(record);
    lemma_finalize_offered(record, start.tags);
    if finalize_offered(family_of(record), start.tags) {
        assert forall|i: int| 0 <= i < fields.len() implies (#[trigger] fields[i]).has_default() by {
            lemma_markers_differ(fields[i].label);
            if !fields[i].has_default() {
                assert(start.tags[i] == set_marker(fields[i].label));
            }
        }
    }
}

/// The order of the setter calls does not show in the result: two well
/// typed chains that make the same calls lead to the same builder, and so
/// to the same record.
pub proof fn lemma_setter_order_is_irrelevant(
    record: RecordSpec,
    first: Seq<(int, InitializerSpec)>,
    second: Seq<(int, InitializerSpec)>,
)
    requires
        generated_names(record).no_duplicates(),
        each_once(first, record.fields.len()),
        each_once(second, record.fields.len()),
        forall|call: (int, InitializerSpec)| first.contains(call) <==> second.contains(call),
    ensures
        run(family_of(record), created(family_of(record)), first) is Some,
        run(family_of(record), created(family_of(record)), first) == run(
            family_of(record),
            created(family_of(record)),
            second,
        ),
{
    lemma_chain(record, first);
    lemma_chain(record, second);
    let k = record.fields.len();
    assert forall|i: int| 0 <= i < k implies called(first, i) == called(second, i) && (called(
        first,
        i,
    ) ==> first[call_of(first, i)].1 == second[call_of(second, i)].1) by {
        lemma_call_of(first, i);
        lemma_call_of(second, i);
        if called(first, i) {
            let call = first[call_of(first, i)];
            assert(first.contains(call));
            assert(second.contains(call));
            let d = choose|d: int| 0 <= d < second.len() && second[d] == call;
            assert(second[d].0 == i);
            assert(called(second, i));
            assert(d == call_of(second, i));
        }
        if called(second, i) {
            let call = second[call_of(second, i)];
            assert(second.contains(call));
            assert(first.contains(call));
            let c = choose|c: int| 0 <= c < first.len() && first[c] == call;
            assert(first[c].0 == i);
            assert(called(first, i));
        }
    }
    assert(reached(record, first).tags =~= reached(record, second).tags);
    assert(reached(record, first).slots =~= reached(record, second).slots);
}

/// Whether the chain calls the setter of every field without a default.
pub open spec fn covers_required(record: RecordSpec, calls: Seq<(int, InitializerSpec)>) -> bool {
    forall|i: int|
        0 <= i < record.fields.len() && !(#[trigger] record.fields[i]).has_default() ==> called(
            calls,
            i,
        )
}

/// The record that a chain of setter calls makes: each field holds the
/// value of its call, or its default where its setter was not called.
pub open spec fn record_of(record: RecordSpec, calls: Seq<(int, InitializerSpec)>) -> Seq<
    InitializerSpec,
> {
    Seq::new(
        record.fields.len(),
        |i: int|
            if called(calls, i) {
                calls[call_of(calls, i)].1
            } else {
                initial_value(record.fields[i].default)->Some_0
            },
    )
}

/// An expression that creates a builder, calls setters and ends in the
/// checked finalize is well typed exactly if it calls no setter twice and
/// the setter of every field without a default once. The record that it
/// yields is then made of the values of the calls and, for the other
/// fields, of their defaults, in whatever order the calls were made.
pub proof fn lemma_built(record: RecordSpec, calls: Seq<(int, InitializerSpec)>)
    requires
        generated_names(record).no_duplicates(),
    ensures
        built(family_of(record), calls) is Some <==> each_once(calls, record.fields.len())
            && covers_required(record, calls),
        built(family_of(record), calls) is Some ==> built(family_of(record), calls) == Some(
            record_of(record, calls),
        ),
{
    lemma_chain(record, calls);
    if each_once(calls, record.fields.len()) {
        lemma_finalize_after_chain(record, calls);
        if covers_required(record, calls) {
            let value = reached(record, calls);
            lemma_finalize_offered(record, value.tags);
            assert forall|i: int| 0 <= i < record.fields.len() implies finalized(value.slots)[i]
                == record_of(record, calls)[i] by {
                if !called(calls, i) {
                    assert(record.fields[i].has_default());
                }
            }
            assert(finalized(value.slots) =~= record_of(record, calls));
        }
    }
}

} // verus!

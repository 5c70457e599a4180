//! The generation as a whole: a record is brought into canonical form, its
//! generated names are checked against each other, and the stages emit the
//! declarations of its builder family.

use vstd::prelude::*;
use crate::builder::{
    builder_name, builder_name_text, builder_type_of, creation_of, emit_builder_type,
    emit_creation, BuilderType, BuilderTypeSpec, Creation, CreationSpec,
};
use crate::error::{colliding_names, result_view, ErrorSpec, GenerationError};
use crate::fields::{normalize_fields, normalized_fields};
use crate::finalize::{emit_finalize, finalize_of, Finalize, FinalizeSpec};
use crate::generics::{
    normalize_generics, normalized_generics, plan_generics, plan_of, tag_param, tag_param_name,
    tag_params, usage, GenericPlan, GenericPlanSpec,
};
use crate::model::{FieldSpec, RawRecord, RawRecordSpec, RecordDescription, RecordSpec};
use crate::raw::{emit_raw_access, raw_access_of, RawAccess, RawAccessSpec};
use crate::setters::{emit_setters, setters_of, Setter, SetterSpec};
use crate::tags::{
    set_marker, set_marker_name, synthesize_tags, tag_pairs, unset_marker, unset_marker_name,
    FieldTagPair, FieldTagPairSpec,
};

verus! {

/// The declarations generated for one record.
#[derive(Clone, Debug, PartialEq, Eq)]
pub struct BuilderFamily {
    pub builder: BuilderType,
    pub generics: GenericPlan,
    /// The marker types, one pair for each field.
    pub tags: Vec<FieldTagPair>,
    pub creation: Creation,
    /// The setters, one for each field.
    pub setters: Vec<Setter>,
    pub finalize: Finalize,
    pub raw: RawAccess,
}

/// The mathematical twin of [`BuilderFamily`].
pub struct FamilySpec {
    pub builder: BuilderTypeSpec,
    pub generics: GenericPlanSpec,
    pub tags: Seq<FieldTagPairSpec>,
    pub creation: CreationSpec,
    pub setters: Seq<SetterSpec>,
    pub finalize: FinalizeSpec,
    pub raw: RawAccessSpec,
}

impl DeepView for BuilderFamily {
    type V = FamilySpec;

    open spec fn deep_view(&self) -> FamilySpec {
        FamilySpec {
            builder: self.builder.deep_view(),
            generics: self.generics.deep_view(),
            tags: self.tags.deep_view(),
            creation: self.creation.deep_view(),
            setters: self.setters.deep_view(),
            finalize: self.finalize.deep_view(),
            raw: self.raw.deep_view(),
        }
    }
}

/// The canonical form of a record: its fields and its parameters in
/// canonical form, the rest as it is. An error among the fields comes before
/// one among the parameters.
pub open spec fn normalized(raw: RawRecordSpec) -> Result<RecordSpec, ErrorSpec> {
    match normalized_fields(raw.fields) {
        Err(e) => Err(e),
        Ok(fields) => match normalized_generics(raw.generics) {
            Err(e) => Err(e),
            Ok(generics) => Ok(
                RecordSpec {
                    name: raw.name,
                    fields,
                    generics,
                    visibility: raw.visibility,
                    where_clause: raw.where_clause,
                },
            ),
        },
    }
}

/// The names of the markers for "set" of the fields.
pub open spec fn set_markers(fields: Seq<FieldSpec>) -> Seq<Seq<char>> {
    Seq::new(fields.len(), |i: int| set_marker(fields[i].label))
}

/// The names of the markers for "unset" of the fields.
pub open spec fn unset_markers(fields: Seq<FieldSpec>) -> Seq<Seq<char>> {
    Seq::new(fields.len(), |i: int| unset_marker(fields[i].label))
}

/// The names that meet in the scope of the generated items: the record, the
/// builder, the record's parameters, the tag parameters and the markers.
pub open spec fn generated_names(record: RecordSpec) -> Seq<Seq<char>> {
    seq![record.name, builder_name(record.name)] + usage(record.generics) + tag_params(
        record.fields,
    ) + set_markers(record.fields) + unset_markers(record.fields)
}

/// The declarations for a record, whatever its names.
pub open spec fn family_of(record: RecordSpec) -> FamilySpec {
    FamilySpec {
        builder: builder_type_of(record),
        generics: plan_of(record),
        tags: tag_pairs(record.fields),
        creation: creation_of(record.fields),
        setters: setters_of(record.fields),
        finalize: finalize_of(record.fields),
        raw: raw_access_of(record.fields),
    }
}

/// What the generation yields for a record in canonical form: its family
/// where no two of its generated names are the same, an error otherwise.
pub open spec fn generated(record: RecordSpec) -> Result<FamilySpec, ErrorSpec> {
    if generated_names(record).no_duplicates() {
        Ok(family_of(record))
    } else {
        Err(colliding_names())
    }
}

/// Whether the family is one that the generation yields for some record.
pub open spec fn is_generated(family: FamilySpec) -> bool {
    exists|record: RecordSpec| #[trigger] generated(record) == Ok::<FamilySpec, ErrorSpec>(family)
}

/// What the generation yields for a record as it arrives.
pub open spec fn derived(raw: RawRecordSpec) -> Result<FamilySpec, ErrorSpec> {
    match normalized(raw) {
        Ok(record) => generated(record),
        Err(e) => Err(e),
    }
}

/// Brings a record into canonical form.
pub fn normalize(raw: &RawRecord) -> (r: Result<RecordDescription, GenerationError>)
    ensures
        result_view(r) == normalized(raw.deep_view()),
{
    let fields = match normalize_fields(&raw.fields) {
        Ok(fields) => fields,
        Err(e) => {
            return Err(e);
        },
    };
    let generics = match normalize_generics(&raw.generics) {
        Ok(generics) => generics,
        Err(e) => {
            return Err(e);
        },
    };
    Ok(
        RecordDescription {
            name: raw.name.clone(),
            fields,
            generics,
            visibility: raw.visibility.clone(),
            where_clause: match &raw.where_clause {
                Some(w) => Some(w.clone()),
                None => None,
            },
        },
    )
}

/// Whether no text occurs twice in `names`.
pub fn all_distinct(names: &Vec<String>) -> (r: bool)
    ensures
        r == names.deep_view().no_duplicates(),
{
    let ghost ns = names.deep_view();
    let mut i: usize = 0;
    while i < names.len()
        invariant
            i <= names.len(),
            ns == names.deep_view(),
            forall|a: int, b: int| 0 <= a < i && 0 <= b < a ==> ns[a] != ns[b],
        decreases names.len() - i,
    {
        let mut j: usize = 0;
        while j < i
            invariant
                j <= i,
                i < names.len(),
                ns == names.deep_view(),
                forall|b: int| 0 <= b < j ==> ns[i as int] != ns[b],
            decreases i - j,
        {
            assert(ns[i as int] == names[i as int]@);
            assert(ns[j as int] == names[j as int]@);
            if names[i] == names[j] {
                return false;
            }
            j = j + 1;
        }
        i = i + 1;
    }
    assert forall|a: int, b: int| 0 <= a < ns.len() && 0 <= b < ns.len() && a != b implies ns[a]
        != ns[b] by {
        if b < a {
            assert(ns[a] != ns[b]);
        } else {
            assert(ns[b] != ns[a]);
        }
    }
    true
}

/// Lists the names that meet in the scope of the generated items.
pub fn list_generated_names(record: &RecordDescription) -> (r: Vec<String>)
    ensures
        r.deep_view() == generated_names(record.deep_view()),
{
    let ghost rec = record.deep_view();
    let ghost fs = rec.fields;
    let ghost gs = rec.generics;
    let mut out: Vec<String> = Vec::new();
    out.push(record.name.clone());
    out.push(builder_name_text(record.name.as_str()));
    let ghost head = seq![rec.name, builder_name(rec.name)];
    assert(out.deep_view() =~= head);
    let mut i: usize = 0;
    while i < record.generics.len()
        invariant
            i <= record.generics.len(),
            gs == record.generics.deep_view(),
            out.deep_view() == head + usage(gs).take(i as int),
        decreases record.generics.len() - i,
    {
        assert(gs[i as int] == record.generics[i as int].deep_view());
        let ghost before = out.deep_view();
        out.push(record.generics[i].ident.clone());
        assert(out.deep_view() =~= before.push(gs[i as int].ident));
        assert(usage(gs).take(i + 1) =~= usage(gs).take(i as int).push(gs[i as int].ident));
        i = i + 1;
    }
    assert(usage(gs).take(i as int) =~= usage(gs));
    let ghost head = head + usage(gs);
    let mut i: usize = 0;
    while i < record.fields.len()
        invariant
            i <= record.fields.len(),
            fs == record.fields.deep_view(),
            out.deep_view() == head + tag_params(fs).take(i as int),
        decreases record.fields.len() - i,
    {
        assert(fs[i as int] == record.fields[i as int].deep_view());
        let ghost before = out.deep_view();
        out.push(tag_param_name(&record.fields[i]));
        assert(out.deep_view() =~= before.push(tag_param(fs[i as int])));
        assert(tag_params(fs).take(i + 1) =~= tag_params(fs).take(i as int).push(
            tag_param(fs[i as int]),
        ));
        i = i + 1;
    }
    assert(tag_params(fs).take(i as int) =~= tag_params(fs));
    let ghost head = head + tag_params(fs);
    let mut i: usize = 0;
    while i < record.fields.len()
        invariant
            i <= record.fields.len(),
            fs == record.fields.deep_view(),
            out.deep_view() == head + set_markers(fs).take(i as int),
        decreases record.fields.len() - i,
    {
        assert(fs[i as int] == record.fields[i as int].deep_view());
        let ghost before = out.deep_view();
        out.push(set_marker_name(&record.fields[i]));
        assert(out.deep_view() =~= before.push(set_marker(fs[i as int].label)));
        assert(set_markers(fs).take(i + 1) =~= set_markers(fs).take(i as int).push(
            set_marker(fs[i as int].label),
        ));
        i = i + 1;
    }
    assert(set_markers(fs).take(i as int) =~= set_markers(fs));
    let ghost head = head + set_markers(fs);
    let mut i: usize = 0;
    while i < record.fields.len()
        invariant
            i <= record.fields.len(),
            fs == record.fields.deep_view(),
            out.deep_view() == head + unset_markers(fs).take(i as int),
        decreases record.fields.len() - i,
    {
        assert(fs[i as int] == record.fields[i as int].deep_view());
        let ghost before = out.deep_view();
        out.push(unset_marker_name(&record.fields[i]));
        assert(out.deep_view() =~= before.push(unset_marker(fs[i as int].label)));
        assert(unset_markers(fs).take(i + 1) =~= unset_markers(fs).take(i as int).push(
            unset_marker(fs[i as int].label),
        ));
        i = i + 1;
    }
    assert(unset_markers(fs).take(i as int) =~= unset_markers(fs));
    out
}

/// Generates the builder family of a record in canonical form. A record
/// whose generated names would collide is refused.
pub fn generate(record: &RecordDescription) -> (r: Result<BuilderFamily, GenerationError>)
    ensures
        result_view(r) == generated(record.deep_view()),
        r matches Ok(family) ==> is_generated(family.deep_view()),
{
    let names = list_generated_names(record);
    if !all_distinct(&names) {
        return Err(GenerationError::colliding_names());
    }
    Ok(
        BuilderFamily {
            builder: emit_builder_type(record),
            generics: plan_generics(record),
            tags: synthesize_tags(&record.fields),
            creation: emit_creation(&record.fields),
            setters: emit_setters(&record.fields),
            finalize: emit_finalize(&record.fields),
            raw: emit_raw_access(&record.fields),
        },
    )
}

/// Generates the builder family of a record as it arrives: the record is
/// brought into canonical form, then its family is generated. Either the
/// whole family comes back or an error, never a part.
pub fn derive_builder(raw: &RawRecord) -> (r: Result<BuilderFamily, GenerationError>)
    ensures
        result_view(r) == derived(raw.deep_view()),
        r matches Ok(family) ==> is_generated(family.deep_view()),
{
    match normalize(raw) {
        Ok(record) => generate(&record),
        Err(e) => Err(e),
    }
}

/// The generation is a function of the description: whatever it yields for
/// one description it yields for every description that reads the same,
/// character for character.
pub proof fn lemma_generation_is_deterministic(
    one: RawRecord,
    other: RawRecord,
    of_one: Result<BuilderFamily, GenerationError>,
    of_other: Result<BuilderFamily, GenerationError>,
)
    requires
        one.deep_view() == other.deep_view(),
        result_view(of_one) == derived(one.deep_view()),
        result_view(of_other) == derived(other.deep_view()),
    ensures
        result_view(of_one) == result_view(of_other),
{
}

} // verus!

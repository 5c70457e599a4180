use makeit::builder::{builder_name_text, emit_builder_type, emit_creation};
use makeit::defaults::{emit_defaults, DefaultWrite, Initializer};
use makeit::error::{ErrorKind, GenerationError, SourcePosition};
use makeit::finalize::emit_finalize;
use makeit::generate::{all_distinct, derive_builder, generate, list_generated_names, normalize};
use makeit::generics::{
    augment_where_clause, buildable_arg_list, buildable_param_names, plan_generics,
    tag_param_names, use_form, TagArg, WherePredicate,
};
use makeit::model::{
    Annotation, AnnotationArgs, ArgToken, DefaultPolicy, Delimiter, FieldDescription, FieldKey,
    GenericParamDescription, ParamKind, RawField, RawGenericParam, RawRecord, RecordDescription,
    TokenKind,
};
use makeit::raw::emit_raw_access;
use makeit::setters::{emit_setter, emit_setters};
use makeit::tags::{synthesize_tags, FieldTagPair};

fn text(s: &str) -> String {
    s.to_string()
}

fn texts(items: &[&str]) -> Vec<String> {
    items.iter().map(|s| s.to_string()).collect()
}

fn param(name: &str) -> TagArg {
    TagArg::Param(text(name))
}

fn marker(name: &str) -> TagArg {
    TagArg::Marker(text(name))
}

fn named(name: &str, ty: &str, annotations: Vec<Annotation>) -> RawField {
    RawField { name: Some(text(name)), ty: text(ty), annotations }
}

fn unnamed(ty: &str, annotations: Vec<Annotation>) -> RawField {
    RawField { name: None, ty: text(ty), annotations }
}

fn token(kind: TokenKind, source: &str) -> ArgToken {
    ArgToken { kind, text: text(source) }
}

fn default_bare() -> Annotation {
    Annotation { name: text("default"), args: AnnotationArgs::Bare }
}

fn default_list(tokens: Vec<ArgToken>) -> Annotation {
    Annotation { name: text("default"), args: AnnotationArgs::List(tokens) }
}

fn default_literal(source: &str) -> Annotation {
    default_list(vec![token(TokenKind::Literal, source)])
}

fn generic(kind: ParamKind, ident: &str, bounds: &str) -> RawGenericParam {
    RawGenericParam { kind: Some(kind), ident: text(ident), bounds: text(bounds) }
}

fn record(name: &str, fields: Vec<RawField>, generics: Vec<RawGenericParam>) -> RawRecord {
    RawRecord { name: text(name), fields, generics, visibility: text("pub"), where_clause: None }
}

fn pair() -> RawRecord {
    record(
        "Pair",
        vec![named("a", "i32", vec![]), named("b", "i32", vec![default_literal("7")])],
        vec![],
    )
}

fn foo() -> RawRecord {
    record(
        "Foo",
        vec![named("bar", "&'a T", vec![]), named("baz", "i32", vec![default_literal("42")])],
        vec![generic(ParamKind::Lifetime, "'a", ""), generic(ParamKind::Type, "T", "std::fmt::Debug")],
    )
}

fn baz() -> RawRecord {
    RawRecord {
        name: text("Baz"),
        fields: vec![unnamed("&'a T", vec![]), unnamed("Option<i32>", vec![default_bare()])],
        generics: vec![generic(ParamKind::Lifetime, "'a", ""), generic(ParamKind::Type, "T", "")],
        visibility: text(""),
        where_clause: Some(text("T: std::fmt::Debug")),
    }
}

fn canonical(raw: &RawRecord) -> RecordDescription {
    normalize(raw).unwrap()
}

#[test]
fn pair_names_follow_the_naming_surface() {
    let family = derive_builder(&pair()).unwrap();
    assert_eq!(family.builder.name, "PairBuilder");
    assert_eq!(family.builder.namespace, "PairBuilderFields");
    assert_eq!(family.builder.record, "Pair");
    assert_eq!(family.builder.visibility, "pub");
    assert!(family.builder.transparent);
    assert_eq!(family.setters[0].name, "set_a");
    assert_eq!(family.setters[0].inner_name, "inner_set_a");
    assert_eq!(family.setters[1].name, "set_b");
    assert_eq!(family.setters[1].inner_name, "inner_set_b");
    assert_eq!(family.raw.accessors[0].name, "ptr_a");
    assert_eq!(family.raw.accessors[1].name, "ptr_b");
    assert_eq!(family.raw.storage, "maybe_uninit");
    assert_eq!(family.creation.name, "builder");
    assert_eq!(family.finalize.checked, "build");
    assert_eq!(family.finalize.unchecked, "unsafe_build");
}

#[test]
fn pair_has_two_markers_for_each_field() {
    let family = derive_builder(&pair()).unwrap();
    assert_eq!(
        family.tags,
        vec![
            FieldTagPair { set: text("ASet"), unset: text("AUnset") },
            FieldTagPair { set: text("BSet"), unset: text("BUnset") },
        ]
    );
}

#[test]
fn pair_plan_pins_the_field_without_default() {
    let family = derive_builder(&pair()).unwrap();
    assert_eq!(family.generics.tag_params, texts(&["FieldA", "FieldB"]));
    assert_eq!(family.generics.buildable_params, texts(&["FieldB"]));
    assert_eq!(family.generics.buildable_args, vec![marker("ASet"), param("FieldB")]);
    assert_eq!(family.finalize.params, texts(&["FieldB"]));
    assert_eq!(family.finalize.receiver, vec![marker("ASet"), param("FieldB")]);
    assert!(family.generics.declaration.is_empty());
    assert!(family.generics.usage.is_empty());
    assert!(family.generics.where_clause.is_empty());
}

#[test]
fn pair_setters_flip_one_tag_and_leave_the_other_free() {
    let family = derive_builder(&pair()).unwrap();
    let set_a = &family.setters[0];
    assert_eq!(set_a.field, FieldKey::Named(text("a")));
    assert_eq!(set_a.value_ty, "i32");
    assert_eq!(set_a.params, texts(&["FieldB"]));
    assert_eq!(set_a.receiver, vec![marker("AUnset"), param("FieldB")]);
    assert_eq!(set_a.result, vec![marker("ASet"), param("FieldB")]);
    let set_b = &family.setters[1];
    assert_eq!(set_b.params, texts(&["FieldA"]));
    assert_eq!(set_b.receiver, vec![param("FieldA"), marker("BUnset")]);
    assert_eq!(set_b.result, vec![param("FieldA"), marker("BSet")]);
}

#[test]
fn pair_creation_starts_unset_and_writes_the_default() {
    let family = derive_builder(&pair()).unwrap();
    assert_eq!(family.creation.builder_args, vec![marker("AUnset"), marker("BUnset")]);
    assert_eq!(
        family.creation.defaults,
        vec![DefaultWrite {
            field: 1,
            writer: text("inner_set_b"),
            value: Initializer::Expr(text("7")),
        }]
    );
}

#[test]
fn generics_are_threaded_through() {
    let family = derive_builder(&foo()).unwrap();
    assert_eq!(family.generics.usage, texts(&["'a", "T"]));
    assert_eq!(
        family.generics.declaration,
        vec![
            GenericParamDescription { kind: ParamKind::Lifetime, ident: text("'a"), bounds: text("") },
            GenericParamDescription {
                kind: ParamKind::Type,
                ident: text("T"),
                bounds: text("std::fmt::Debug"),
            },
        ]
    );
    assert_eq!(family.generics.tag_params, texts(&["FieldBar", "FieldBaz"]));
    assert_eq!(family.builder.name, "FooBuilder");
    assert_eq!(family.setters[0].value_ty, "&'a T");
    assert_eq!(family.raw.accessors[0].pointee_ty, "&'a T");
}

#[test]
fn const_parameters_keep_their_kind() {
    let raw = record(
        "Grid",
        vec![named("cells", "[u8; N]", vec![])],
        vec![generic(ParamKind::Const, "N", "usize")],
    );
    let family = derive_builder(&raw).unwrap();
    assert_eq!(family.generics.declaration[0].kind, ParamKind::Const);
    assert_eq!(family.generics.declaration[0].bounds, "usize");
    assert_eq!(family.generics.usage, texts(&["N"]));
}

#[test]
fn positional_fields_are_keyed_by_index() {
    let family = derive_builder(&baz()).unwrap();
    assert_eq!(family.setters[0].field, FieldKey::Positional(0));
    assert_eq!(family.setters[0].name, "set_0");
    assert_eq!(family.setters[1].name, "set_1");
    assert_eq!(family.setters[1].inner_name, "inner_set_1");
    assert_eq!(family.raw.accessors[1].name, "ptr_1");
    assert_eq!(family.raw.accessors[1].field, FieldKey::Positional(1));
    assert_eq!(family.tags[0].set, "Field0Set");
    assert_eq!(family.tags[1].unset, "Field1Unset");
    assert_eq!(family.generics.tag_params, texts(&["Field0", "Field1"]));
    assert_eq!(family.generics.buildable_args, vec![marker("Field0Set"), param("Field1")]);
}

#[test]
fn construct_default_adds_a_bound_to_the_where_clause() {
    let family = derive_builder(&baz()).unwrap();
    assert_eq!(
        family.generics.where_clause,
        vec![
            WherePredicate::Declared(text("T: std::fmt::Debug")),
            WherePredicate::DefaultConstructible(text("Option<i32>")),
        ]
    );
    assert_eq!(
        family.creation.defaults,
        vec![DefaultWrite {
            field: 1,
            writer: text("inner_set_1"),
            value: Initializer::ConstructDefault,
        }]
    );
}

#[test]
fn expression_default_adds_no_bound() {
    let family = derive_builder(&foo()).unwrap();
    assert!(family.generics.where_clause.is_empty());
}

#[test]
fn where_clause_is_synthesized_when_the_record_has_none() {
    let raw = record("Bar", vec![named("baz", "Option<i32>", vec![default_bare()])], vec![]);
    let clause = augment_where_clause(&canonical(&raw));
    assert_eq!(clause, vec![WherePredicate::DefaultConstructible(text("Option<i32>"))]);
}

#[test]
fn raw_identifiers_lose_their_prefix_in_generated_names() {
    let raw = record("Node", vec![named("r#type", "u8", vec![])], vec![]);
    let family = derive_builder(&raw).unwrap();
    assert_eq!(family.setters[0].field, FieldKey::Named(text("r#type")));
    assert_eq!(family.setters[0].name, "set_type");
    assert_eq!(family.setters[0].inner_name, "inner_set_type");
    assert_eq!(family.raw.accessors[0].name, "ptr_type");
    assert_eq!(family.tags[0].set, "TypeSet");
    assert_eq!(family.generics.tag_params, texts(&["FieldType"]));
}

#[test]
fn raw_record_name_loses_its_prefix_in_the_builder_name() {
    assert_eq!(builder_name_text("r#Match"), "MatchBuilder");
    assert_eq!(builder_name_text("Plain"), "PlainBuilder");
}

#[test]
fn record_without_fields_has_an_empty_family() {
    let family = derive_builder(&record("Unit", vec![], vec![])).unwrap();
    assert!(family.tags.is_empty());
    assert!(family.setters.is_empty());
    assert!(family.raw.accessors.is_empty());
    assert!(family.creation.builder_args.is_empty());
    assert!(family.finalize.receiver.is_empty());
    assert_eq!(family.builder.name, "UnitBuilder");
}

#[test]
fn absent_annotation_means_no_default() {
    let fields = canonical(&pair()).fields;
    assert_eq!(fields[0].default, DefaultPolicy::NoDefault);
    assert_eq!(fields[0].label, "A");
    assert_eq!(fields[0].key, FieldKey::Named(text("a")));
    assert_eq!(fields[0].ty, "i32");
}

#[test]
fn bare_annotation_means_construct_default() {
    let raw = record("Bar", vec![named("baz", "Option<i32>", vec![default_bare()])], vec![]);
    assert_eq!(canonical(&raw).fields[0].default, DefaultPolicy::DefaultConstruct);
}

#[test]
fn one_literal_is_kept_as_the_default_expression() {
    let fields = canonical(&pair()).fields;
    assert_eq!(fields[1].default, DefaultPolicy::DefaultExpr(text("7")));
}

#[test]
fn one_parenthesized_group_is_kept_as_the_default_expression() {
    let group = token(TokenKind::Group(Delimiter::Parenthesis), "(1 + 2)");
    let raw = record("Sum", vec![named("total", "i32", vec![default_list(vec![group])])], vec![]);
    assert_eq!(canonical(&raw).fields[0].default, DefaultPolicy::DefaultExpr(text("(1 + 2)")));
}

fn malformed_at(annotation: Annotation) -> GenerationError {
    let raw = record(
        "Bad",
        vec![named("fine", "u8", vec![]), named("broken", "u8", vec![annotation])],
        vec![],
    );
    derive_builder(&raw).unwrap_err()
}

fn assert_malformed(error: &GenerationError) {
    assert_eq!(error.kind, ErrorKind::MalformedDefaultAttribute);
    assert_eq!(error.position, SourcePosition::Annotation { field: 1, index: 0 });
    assert_eq!(error.message, "Expected `#[default(\u{2026})]`");
}

#[test]
fn two_arguments_are_malformed() {
    let minus = token(TokenKind::Punct, "-");
    let one = token(TokenKind::Literal, "1");
    assert_malformed(&malformed_at(default_list(vec![minus, one])));
}

#[test]
fn empty_argument_list_is_malformed() {
    assert_malformed(&malformed_at(default_list(vec![])));
}

#[test]
fn identifier_argument_is_malformed() {
    assert_malformed(&malformed_at(default_list(vec![token(TokenKind::Ident, "MAX")])));
}

#[test]
fn bracketed_group_is_malformed() {
    let group = token(TokenKind::Group(Delimiter::Bracket), "[1, 2]");
    assert_malformed(&malformed_at(default_list(vec![group])));
    let braces = token(TokenKind::Group(Delimiter::Brace), "{ 1 }");
    assert_malformed(&malformed_at(default_list(vec![braces])));
    let invisible = token(TokenKind::Group(Delimiter::Invisible), "1");
    assert_malformed(&malformed_at(default_list(vec![invisible])));
}

#[test]
fn assignment_form_is_malformed() {
    let annotation = Annotation { name: text("default"), args: AnnotationArgs::Assigned };
    assert_malformed(&malformed_at(annotation));
}

#[test]
fn malformed_annotation_is_reported_at_its_own_position() {
    let doc = Annotation { name: text("doc"), args: AnnotationArgs::Assigned };
    let broken = default_list(vec![]);
    let raw = record("Bad", vec![named("x", "u8", vec![doc, broken])], vec![]);
    let error = derive_builder(&raw).unwrap_err();
    assert_eq!(error.position, SourcePosition::Annotation { field: 0, index: 1 });
}

#[test]
fn other_annotations_are_ignored() {
    let doc = Annotation { name: text("doc"), args: AnnotationArgs::Assigned };
    let serde = Annotation { name: text("serde"), args: AnnotationArgs::List(vec![]) };
    let raw = record("Doc", vec![named("x", "u8", vec![doc, serde])], vec![]);
    assert_eq!(canonical(&raw).fields[0].default, DefaultPolicy::NoDefault);
}

#[test]
fn first_default_annotation_decides() {
    let raw = record(
        "Twice",
        vec![named("x", "u8", vec![default_literal("1"), default_bare()])],
        vec![],
    );
    assert_eq!(canonical(&raw).fields[0].default, DefaultPolicy::DefaultExpr(text("1")));
    let raw = record(
        "Twice",
        vec![named("x", "u8", vec![default_bare(), default_list(vec![])])],
        vec![],
    );
    assert_eq!(canonical(&raw).fields[0].default, DefaultPolicy::DefaultConstruct);
}

#[test]
fn first_malformed_field_is_the_one_reported() {
    let raw = record(
        "Bad",
        vec![
            named("a", "u8", vec![default_list(vec![])]),
            named("b", "u8", vec![default_list(vec![])]),
        ],
        vec![],
    );
    let error = derive_builder(&raw).unwrap_err();
    assert_eq!(error.position, SourcePosition::Annotation { field: 0, index: 0 });
}

#[test]
fn unknown_parameter_kind_is_unsupported() {
    let odd = RawGenericParam { kind: None, ident: text("X"), bounds: text("") };
    let raw = record(
        "Odd",
        vec![named("a", "u8", vec![])],
        vec![generic(ParamKind::Type, "T", ""), odd],
    );
    let error = derive_builder(&raw).unwrap_err();
    assert_eq!(error.kind, ErrorKind::UnsupportedShape);
    assert_eq!(error.position, SourcePosition::GenericParam { index: 1 });
    assert_eq!(error.message, "generic parameter of an unsupported kind");
}

#[test]
fn field_errors_come_before_parameter_errors() {
    let odd = RawGenericParam { kind: None, ident: text("X"), bounds: text("") };
    let raw = record("Odd", vec![named("a", "u8", vec![default_list(vec![])])], vec![odd]);
    let error = derive_builder(&raw).unwrap_err();
    assert_eq!(error.kind, ErrorKind::MalformedDefaultAttribute);
}

fn assert_collision(raw: &RawRecord) {
    let error = derive_builder(raw).unwrap_err();
    assert_eq!(error.kind, ErrorKind::UnsupportedShape);
    assert_eq!(error.position, SourcePosition::Record);
    assert_eq!(error.message, "the names generated for this record collide");
}

#[test]
fn fields_with_the_same_label_collide() {
    assert_collision(&record(
        "Clash",
        vec![named("foo", "u8", vec![]), named("Foo", "u8", vec![])],
        vec![],
    ));
}

#[test]
fn tag_parameter_must_not_shadow_a_parameter_of_the_record() {
    assert_collision(&record(
        "Clash",
        vec![named("a", "FieldA", vec![])],
        vec![generic(ParamKind::Type, "FieldA", "")],
    ));
}

#[test]
fn marker_must_not_shadow_the_record() {
    assert_collision(&record("ASet", vec![named("a", "u8", vec![])], vec![]));
}

#[test]
fn marker_must_not_shadow_a_tag_parameter() {
    assert_collision(&record(
        "Clash",
        vec![named("x_Set", "u8", vec![]), named("fieldX_", "u8", vec![])],
        vec![],
    ));
}

#[test]
fn no_family_is_emitted_in_part() {
    let raw = record(
        "Bad",
        vec![named("good", "u8", vec![]), named("bad", "u8", vec![default_list(vec![])])],
        vec![],
    );
    assert!(derive_builder(&raw).is_err());
    assert!(normalize(&raw).is_err());
}

#[test]
fn generation_is_deterministic() {
    for raw in [pair(), foo(), baz()] {
        let first = derive_builder(&raw).unwrap();
        let second = derive_builder(&raw.clone()).unwrap();
        assert_eq!(first, second);
        assert_eq!(format!("{:?}", first), format!("{:?}", second));
    }
}

#[test]
fn derive_is_normalize_then_generate() {
    for raw in [pair(), foo(), baz()] {
        assert_eq!(derive_builder(&raw), generate(&canonical(&raw)));
    }
}

#[test]
fn stages_agree_with_the_family() {
    let description = canonical(&foo());
    let family = generate(&description).unwrap();
    assert_eq!(family.builder, emit_builder_type(&description));
    assert_eq!(family.generics, plan_generics(&description));
    assert_eq!(family.tags, synthesize_tags(&description.fields));
    assert_eq!(family.creation, emit_creation(&description.fields));
    assert_eq!(family.creation.defaults, emit_defaults(&description.fields));
    assert_eq!(family.setters, emit_setters(&description.fields));
    assert_eq!(family.setters[1], emit_setter(&description.fields, 1));
    assert_eq!(family.finalize, emit_finalize(&description.fields));
    assert_eq!(family.raw, emit_raw_access(&description.fields));
    assert_eq!(family.generics.usage, use_form(&description.generics));
    assert_eq!(family.generics.tag_params, tag_param_names(&description.fields));
    assert_eq!(family.generics.buildable_params, buildable_param_names(&description.fields));
    assert_eq!(family.generics.buildable_args, buildable_arg_list(&description.fields));
}

#[test]
fn generated_names_are_listed_in_order() {
    let names = list_generated_names(&canonical(&foo()));
    assert_eq!(
        names,
        texts(&[
            "Foo", "FooBuilder", "'a", "T", "FieldBar", "FieldBaz", "BarSet", "BazSet",
            "BarUnset", "BazUnset",
        ])
    );
    assert!(all_distinct(&names));
}

#[test]
fn all_distinct_finds_a_repeat() {
    assert!(all_distinct(&texts(&[])));
    assert!(all_distinct(&texts(&["a"])));
    assert!(all_distinct(&texts(&["a", "b", "c"])));
    assert!(!all_distinct(&texts(&["a", "b", "a"])));
    assert!(!all_distinct(&texts(&["a", "b", "b"])));
}

#[test]
fn three_fields_each_setter_is_generic_in_the_two_others() {
    let raw = record(
        "Triple",
        vec![named("x", "u8", vec![]), named("y", "u8", vec![]), named("z", "u8", vec![])],
        vec![],
    );
    let family = derive_builder(&raw).unwrap();
    assert_eq!(family.setters[1].params, texts(&["FieldX", "FieldZ"]));
    assert_eq!(
        family.setters[1].receiver,
        vec![param("FieldX"), marker("YUnset"), param("FieldZ")]
    );
    assert_eq!(family.setters[1].result, vec![param("FieldX"), marker("YSet"), param("FieldZ")]);
    assert_eq!(family.setters[2].params, texts(&["FieldX", "FieldY"]));
    assert!(family.finalize.params.is_empty());
    assert_eq!(family.finalize.receiver, vec![marker("XSet"), marker("YSet"), marker("ZSet")]);
}

#[test]
fn canonical_fields_can_be_given_directly() {
    let description = RecordDescription {
        name: text("Pair"),
        fields: vec![
            FieldDescription {
                key: FieldKey::Named(text("a")),
                label: text("A"),
                ty: text("i32"),
                default: DefaultPolicy::NoDefault,
            },
            FieldDescription {
                key: FieldKey::Named(text("b")),
                label: text("B"),
                ty: text("i32"),
                default: DefaultPolicy::DefaultExpr(text("7")),
            },
        ],
        generics: vec![],
        visibility: text("pub"),
        where_clause: None,
    };
    assert_eq!(description, canonical(&pair()));
    assert_eq!(generate(&description), derive_builder(&pair()));
    assert!(description.fields[1].has_default());
    assert!(!description.fields[0].has_default());
}

fn params_of(pattern: &[TagArg]) -> Vec<String> {
    pattern
        .iter()
        .filter_map(|arg| match arg {
            TagArg::Param(name) => Some(name.clone()),
            TagArg::Marker(_) => None,
        })
        .collect()
}

#[test]
fn operations_are_generic_in_what_their_patterns_hold() {
    for raw in [pair(), foo(), baz()] {
        let family = derive_builder(&raw).unwrap();
        for setter in &family.setters {
            assert_eq!(setter.params, params_of(&setter.receiver));
            assert_eq!(setter.params, params_of(&setter.result));
        }
        assert_eq!(family.finalize.params, params_of(&family.finalize.receiver));
        assert!(params_of(&family.creation.builder_args).is_empty());
    }
}

#[test]
fn markers_and_parameters_of_a_family_are_distinct() {
    for raw in [pair(), foo(), baz()] {
        let family = derive_builder(&raw).unwrap();
        let mut names: Vec<String> = family.generics.tag_params.clone();
        for pair in &family.tags {
            names.push(pair.set.clone());
            names.push(pair.unset.clone());
        }
        names.extend(family.generics.usage.iter().cloned());
        assert!(all_distinct(&names));
    }
}

#[test]
fn generic_parameters_of_unknown_kind_are_found_first_to_last() {
    let odd = |name: &str| RawGenericParam { kind: None, ident: text(name), bounds: text("") };
    let error =
        makeit::generics::normalize_generics(&vec![odd("X"), odd("Y")]).unwrap_err();
    assert_eq!(error.position, SourcePosition::GenericParam { index: 0 });
    let fine = makeit::generics::normalize_generics(&vec![generic(ParamKind::Type, "T", "Copy")]);
    assert_eq!(
        fine,
        Ok(vec![GenericParamDescription {
            kind: ParamKind::Type,
            ident: text("T"),
            bounds: text("Copy"),
        }])
    );
    assert_eq!(
        makeit::generics::declaration_form(fine.as_ref().unwrap()),
        fine.clone().unwrap()
    );
}

#[test]
fn errors_are_built_with_their_message() {
    let error = GenerationError::malformed_default(2, 1);
    assert_eq!(error.kind, ErrorKind::MalformedDefaultAttribute);
    assert_eq!(error.position, SourcePosition::Annotation { field: 2, index: 1 });
    assert_eq!(error.message, "Expected `#[default(\u{2026})]`");
    assert_eq!(GenerationError::unknown_param_kind(3).position, SourcePosition::GenericParam { index: 3 });
    assert_eq!(GenerationError::colliding_names().position, SourcePosition::Record);
}

use makeit::fields::{normalize_field, parse_default_policy, policy_from_args, same_text};
use makeit::model::{
    Annotation, AnnotationArgs, ArgToken, DefaultPolicy, FieldKey, RawField, TokenKind,
};
use makeit::setters::{copy_key, key_suffix_text, setter_name_text, writer_name_text};
use makeit::text::{bare_name, capitalize, join, decimal_text, replace_initial};

#[test]
fn capitalize_raises_the_first_letter_only() {
    assert_eq!(capitalize("bar"), "Bar");
    assert_eq!(capitalize("fooBar"), "FooBar");
    assert_eq!(capitalize("snake_case"), "Snake_case");
    assert_eq!(capitalize("Already"), "Already");
    assert_eq!(capitalize("x"), "X");
    assert_eq!(capitalize("_hidden"), "_hidden");
}

#[test]
fn capitalize_drops_the_raw_prefix() {
    assert_eq!(capitalize("r#type"), "Type");
    assert_eq!(capitalize("r#r#fn"), "Fn");
    assert_eq!(capitalize("r"), "R");
    assert_eq!(capitalize("r#"), "");
}

#[test]
fn capitalize_of_nothing_is_nothing() {
    assert_eq!(capitalize(""), "");
}

#[test]
fn capitalize_follows_unicode() {
    assert_eq!(capitalize("\u{e9}cole"), "\u{c9}cole");
    assert_eq!(capitalize("\u{df}et"), "SSet");
}

#[test]
fn replace_initial_puts_the_given_text_first() {
    assert_eq!(replace_initial("Q", "bar"), "Qar");
    assert_eq!(replace_initial("SS", "r#set"), "SSet");
    assert_eq!(replace_initial("Q", ""), "");
    assert_eq!(replace_initial("", "bar"), "ar");
}

#[test]
fn bare_name_strips_one_prefix() {
    assert_eq!(bare_name("r#type"), "type");
    assert_eq!(bare_name("type"), "type");
    assert_eq!(bare_name("r#r#x"), "r#x");
    assert_eq!(bare_name("r"), "r");
    assert_eq!(bare_name(""), "");
    assert_eq!(bare_name("rx#"), "rx#");
}

#[test]
fn decimal_text_writes_the_number() {
    assert_eq!(decimal_text(0), "0");
    assert_eq!(decimal_text(7), "7");
    assert_eq!(decimal_text(9), "9");
    assert_eq!(decimal_text(10), "10");
    assert_eq!(decimal_text(42), "42");
    assert_eq!(decimal_text(12345), "12345");
    assert_eq!(decimal_text(1_000_000), "1000000");
    assert_eq!(decimal_text(usize::MAX), usize::MAX.to_string());
}

#[test]
fn join_puts_one_text_after_the_other() {
    assert_eq!(join("set_", "a"), "set_a");
    assert_eq!(join("", ""), "");
    assert_eq!(join("a", ""), "a");
}

#[test]
fn same_text_compares_by_content() {
    assert!(same_text("default", "default"));
    assert!(!same_text("default", "Default"));
    assert!(!same_text("default", "defaults"));
    assert!(same_text("", ""));
}

#[test]
fn key_names_of_named_and_positional_fields() {
    let named = FieldKey::Named("r#loop".to_string());
    let positional = FieldKey::Positional(12);
    assert_eq!(key_suffix_text(&named), "loop");
    assert_eq!(key_suffix_text(&positional), "12");
    assert_eq!(setter_name_text(&named), "set_loop");
    assert_eq!(setter_name_text(&positional), "set_12");
    assert_eq!(writer_name_text(&named), "inner_set_loop");
    assert_eq!(writer_name_text(&positional), "inner_set_12");
    assert_eq!(copy_key(&named), named);
    assert_eq!(copy_key(&positional), positional);
}

#[test]
fn policy_from_args_reads_the_grammar() {
    assert_eq!(policy_from_args(&AnnotationArgs::Bare), Some(DefaultPolicy::DefaultConstruct));
    let literal = ArgToken { kind: TokenKind::Literal, text: "\"hi\"".to_string() };
    assert_eq!(
        policy_from_args(&AnnotationArgs::List(vec![literal.clone()])),
        Some(DefaultPolicy::DefaultExpr("\"hi\"".to_string()))
    );
    assert_eq!(policy_from_args(&AnnotationArgs::List(vec![literal.clone(), literal])), None);
    assert_eq!(policy_from_args(&AnnotationArgs::Assigned), None);
}

#[test]
fn parse_default_policy_without_annotations() {
    assert_eq!(parse_default_policy(&vec![], 3), Ok(DefaultPolicy::NoDefault));
}

#[test]
fn normalize_field_labels_a_positional_field_by_its_index() {
    let raw = RawField { name: None, ty: "u8".to_string(), annotations: vec![] };
    let field = normalize_field(&raw, 10).unwrap();
    assert_eq!(field.key, FieldKey::Positional(10));
    assert_eq!(field.label, "Field10");
    assert_eq!(field.ty, "u8");
    assert_eq!(field.default, DefaultPolicy::NoDefault);
}

#[test]
fn normalize_field_reports_its_own_index() {
    let broken = Annotation { name: "default".to_string(), args: AnnotationArgs::Assigned };
    let raw = RawField { name: None, ty: "u8".to_string(), annotations: vec![broken] };
    let error = normalize_field(&raw, 4).unwrap_err();
    assert_eq!(
        error.position,
        makeit::error::SourcePosition::Annotation { field: 4, index: 0 }
    );
}

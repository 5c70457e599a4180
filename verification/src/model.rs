//! The description of a record: as it arrives, with the annotations of its
//! fields still unread, and in canonical form, each field with its key, its
//! label and its default policy.
//!
//! Each executable type has a mathematical twin over `Seq`, reached by
//! `deep_view`; the contracts of the crate speak of the twins.

use vstd::prelude::*;

verus! {

/// How a group of tokens is delimited.
#[derive(Clone, Copy, Debug, PartialEq, Eq, Structural)]
pub enum Delimiter {
    Parenthesis,
    Brace,
    Bracket,
    Invisible,
}

/// The kind of one token tree.
#[derive(Clone, Copy, Debug, PartialEq, Eq, Structural)]
pub enum TokenKind {
    Literal,
    Ident,
    Punct,
    Group(Delimiter),
}

/// One token tree among the arguments of an annotation: its kind, and its
/// text as written.
#[derive(Clone, Debug, PartialEq, Eq)]
pub struct ArgToken {
    pub kind: TokenKind,
    pub text: String,
}

/// The mathematical twin of [`ArgToken`].
pub struct ArgTokenSpec {
    pub kind: TokenKind,
    pub text: Seq<char>,
}

impl DeepView for ArgToken {
    type V = ArgTokenSpec;

    open spec fn deep_view(&self) -> ArgTokenSpec {
        ArgTokenSpec { kind: self.kind, text: self.text@ }
    }
}

/// What follows the name of an annotation.
#[derive(Clone, Debug, PartialEq, Eq)]
pub enum AnnotationArgs {
    /// Nothing: `#[name]`.
    Bare,
    /// A delimited list of token trees: `#[name(..)]`.
    List(Vec<ArgToken>),
    /// An assignment: `#[name = ..]`.
    Assigned,
}

/// The mathematical twin of [`AnnotationArgs`].
pub enum AnnotationArgsSpec {
    Bare,
    List(Seq<ArgTokenSpec>),
    Assigned,
}

impl DeepView for AnnotationArgs {
    type V = AnnotationArgsSpec;

    open spec fn deep_view(&self) -> AnnotationArgsSpec {
        match self {
            AnnotationArgs::Bare => AnnotationArgsSpec::Bare,
            AnnotationArgs::List(tokens) => AnnotationArgsSpec::List(tokens.deep_view()),
            AnnotationArgs::Assigned => AnnotationArgsSpec::Assigned,
        }
    }
}

/// An annotation on a field.
#[derive(Clone, Debug, PartialEq, Eq)]
pub struct Annotation {
    pub name: String,
    pub args: AnnotationArgs,
}

/// The mathematical twin of [`Annotation`].
pub struct AnnotationSpec {
    pub name: Seq<char>,
    pub args: AnnotationArgsSpec,
}

impl DeepView for Annotation {
    type V = AnnotationSpec;

    open spec fn deep_view(&self) -> AnnotationSpec {
        AnnotationSpec { name: self.name@, args: self.args.deep_view() }
    }
}

/// A field as it arrives: its name, if it has one, the tokens of its type,
/// and its annotations in source order.
#[derive(Clone, Debug, PartialEq, Eq)]
pub struct RawField {
    pub name: Option<String>,
    pub ty: String,
    pub annotations: Vec<Annotation>,
}

/// The mathematical twin of [`RawField`].
pub struct RawFieldSpec {
    pub name: Option<Seq<char>>,
    pub ty: Seq<char>,
    pub annotations: Seq<AnnotationSpec>,
}

impl DeepView for RawField {
    type V = RawFieldSpec;

    open spec fn deep_view(&self) -> RawFieldSpec {
        RawFieldSpec {
            name: match self.name {
                Some(n) => Some(n@),
                None => None,
            },
            ty: self.ty@,
            annotations: self.annotations.deep_view(),
        }
    }
}

/// The kind of a generic parameter.
#[derive(Clone, Copy, Debug, PartialEq, Eq, Structural)]
pub enum ParamKind {
    Type,
    Lifetime,
    Const,
}

/// A generic parameter as it arrives; `kind` is `None` where the parameter
/// is of no kind that the model knows.
#[derive(Clone, Debug, PartialEq, Eq)]
pub struct RawGenericParam {
    pub kind: Option<ParamKind>,
    pub ident: String,
    pub bounds: String,
}

/// The mathematical twin of [`RawGenericParam`].
pub struct RawGenericParamSpec {
    pub kind: Option<ParamKind>,
    pub ident: Seq<char>,
    pub bounds: Seq<char>,
}

impl DeepView for RawGenericParam {
    type V = RawGenericParamSpec;

    open spec fn deep_view(&self) -> RawGenericParamSpec {
        RawGenericParamSpec { kind: self.kind, ident: self.ident@, bounds: self.bounds@ }
    }
}

/// A record as it arrives.
#[derive(Clone, Debug, PartialEq, Eq)]
pub struct RawRecord {
    pub name: String,
    pub fields: Vec<RawField>,
    pub generics: Vec<RawGenericParam>,
    pub visibility: String,
    pub where_clause: Option<String>,
}

/// The mathematical twin of [`RawRecord`].
pub struct RawRecordSpec {
    pub name: Seq<char>,
    pub fields: Seq<RawFieldSpec>,
    pub generics: Seq<RawGenericParamSpec>,
    pub visibility: Seq<char>,
    pub where_clause: Option<Seq<char>>,
}

impl DeepView for RawRecord {
    type V = RawRecordSpec;

    open spec fn deep_view(&self) -> RawRecordSpec {
        RawRecordSpec {
            name: self.name@,
            fields: self.fields.deep_view(),
            generics: self.generics.deep_view(),
            visibility: self.visibility@,
            where_clause: match self.where_clause {
                Some(w) => Some(w@),
                None => None,
            },
        }
    }
}

/// The key of a field: its name as written, or its position.
#[derive(Clone, Debug, PartialEq, Eq)]
pub enum FieldKey {
    Named(String),
    Positional(usize),
}

/// The mathematical twin of [`FieldKey`].
pub enum FieldKeySpec {
    Named(Seq<char>),
    Positional(nat),
}

impl DeepView for FieldKey {
    type V = FieldKeySpec;

    open spec fn deep_view(&self) -> FieldKeySpec {
        match self {
            FieldKey::Named(n) => FieldKeySpec::Named(n@),
            FieldKey::Positional(i) => FieldKeySpec::Positional(*i as nat),
        }
    }
}

/// What fills a field that no setter was called for.
#[derive(Clone, Debug, PartialEq, Eq)]
pub enum DefaultPolicy {
    /// Nothing: the field has to be set.
    NoDefault,
    /// The default value of the field's type.
    DefaultConstruct,
    /// The value of the expression whose tokens these are.
    DefaultExpr(String),
}

/// The mathematical twin of [`DefaultPolicy`].
pub enum DefaultPolicySpec {
    NoDefault,
    DefaultConstruct,
    DefaultExpr(Seq<char>),
}

impl DeepView for DefaultPolicy {
    type V = DefaultPolicySpec;

    open spec fn deep_view(&self) -> DefaultPolicySpec {
        match self {
            DefaultPolicy::NoDefault => DefaultPolicySpec::NoDefault,
            DefaultPolicy::DefaultConstruct => DefaultPolicySpec::DefaultConstruct,
            DefaultPolicy::DefaultExpr(tokens) => DefaultPolicySpec::DefaultExpr(tokens@),
        }
    }
}

/// A field in canonical form.
#[derive(Clone, Debug, PartialEq, Eq)]
pub struct FieldDescription {
    pub key: FieldKey,
    /// The capitalised label that the names of the field's tag types start
    /// with.
    pub label: String,
    pub ty: String,
    pub default: DefaultPolicy,
}

/// The mathematical twin of [`FieldDescription`].
pub struct FieldSpec {
    pub key: FieldKeySpec,
    pub label: Seq<char>,
    pub ty: Seq<char>,
    pub default: DefaultPolicySpec,
}

impl DeepView for FieldDescription {
    type V = FieldSpec;

    open spec fn deep_view(&self) -> FieldSpec {
        FieldSpec {
            key: self.key.deep_view(),
            label: self.label@,
            ty: self.ty@,
            default: self.default.deep_view(),
        }
    }
}

/// A generic parameter of the record: its kind, its identifier (a lifetime
/// with its quote) and the tokens of its bounds.
#[derive(Clone, Debug, PartialEq, Eq)]
pub struct GenericParamDescription {
    pub kind: ParamKind,
    pub ident: String,
    pub bounds: String,
}

/// The mathematical twin of [`GenericParamDescription`].
pub struct GenericParamSpec {
    pub kind: ParamKind,
    pub ident: Seq<char>,
    pub bounds: Seq<char>,
}

impl DeepView for GenericParamDescription {
    type V = GenericParamSpec;

    open spec fn deep_view(&self) -> GenericParamSpec {
        GenericParamSpec { kind: self.kind, ident: self.ident@, bounds: self.bounds@ }
    }
}

/// A record in canonical form: what every stage of the generation reads.
#[derive(Clone, Debug, PartialEq, Eq)]
pub struct RecordDescription {
    pub name: String,
    pub fields: Vec<FieldDescription>,
    pub generics: Vec<GenericParamDescription>,
    pub visibility: String,
    pub where_clause: Option<String>,
}

/// The mathematical twin of [`RecordDescription`].
pub struct RecordSpec {
    pub name: Seq<char>,
    pub fields: Seq<FieldSpec>,
    pub generics: Seq<GenericParamSpec>,
    pub visibility: Seq<char>,
    pub where_clause: Option<Seq<char>>,
}

impl DeepView for RecordDescription {
    type V = RecordSpec;

    open spec fn deep_view(&self) -> RecordSpec {
        RecordSpec {
            name: self.name@,
            fields: self.fields.deep_view(),
            generics: self.generics.deep_view(),
            visibility: self.visibility@,
            where_clause: match self.where_clause {
                Some(w) => Some(w@),
                None => None,
            },
        }
    }
}

impl FieldSpec {
    /// Whether the field is filled when the builder is created.
    pub open spec fn has_default(self) -> bool {
        !(self.default is NoDefault)
    }
}

impl FieldDescription {
    /// Whether the field is filled when the builder is created.
    pub fn has_default(&self) -> (b: bool)
        ensures
            b == self.deep_view().has_default(),
    {
        match &self.default {
            DefaultPolicy::NoDefault => false,
            _ => true,
        }
    }
}

} // verus!

//! What stops a generation, and where in the description it was found.

use vstd::prelude::*;

verus! {

/// The two reasons for which a record yields no builder family.
#[derive(Clone, Copy, Debug, PartialEq, Eq, Structural)]
pub enum ErrorKind {
    /// The arguments of a `default` annotation are not of the accepted
    /// shape.
    MalformedDefaultAttribute,
    /// The record lies outside what the generator has a model for.
    UnsupportedShape,
}

/// A place in the description of a record.
#[derive(Clone, Copy, Debug, PartialEq, Eq, Structural)]
pub enum SourcePosition {
    /// The record as a whole.
    Record,
    /// The annotation `index` of the field `field`.
    Annotation { field: usize, index: usize },
    /// The generic parameter `index`.
    GenericParam { index: usize },
}

/// A generation error: its kind, its place and a message for the user.
#[derive(Clone, Debug, PartialEq, Eq)]
pub struct GenerationError {
    pub kind: ErrorKind,
    pub position: SourcePosition,
    pub message: String,
}

/// The mathematical twin of [`GenerationError`].
pub struct ErrorSpec {
    pub kind: ErrorKind,
    pub position: SourcePosition,
    pub message: Seq<char>,
}

impl DeepView for GenerationError {
    type V = ErrorSpec;

    open spec fn deep_view(&self) -> ErrorSpec {
        ErrorSpec { kind: self.kind, position: self.position, message: self.message@ }
    }
}

/// The mathematical twin of a result.
pub open spec fn result_view<T: DeepView, E: DeepView>(r: Result<T, E>) -> Result<T::V, E::V> {
    match r {
        Ok(t) => Ok(t.deep_view()),
        Err(e) => Err(e.deep_view()),
    }
}

/// The error for a `default` annotation that is not of the accepted shape.
pub open spec fn malformed_default(field: usize, index: usize) -> ErrorSpec {
    ErrorSpec {
        kind: ErrorKind::MalformedDefaultAttribute,
        position: SourcePosition::Annotation { field, index },
        message: "Expected `#[default(\u{2026})]`"@,
    }
}

/// The error for a generic parameter of unknown kind.
pub open spec fn unknown_param_kind(index: usize) -> ErrorSpec {
    ErrorSpec {
        kind: ErrorKind::UnsupportedShape,
        position: SourcePosition::GenericParam { index },
        message: "generic parameter of an unsupported kind"@,
    }
}

/// The error for a record whose generated names would not be distinct.
pub open spec fn colliding_names() -> ErrorSpec {
    ErrorSpec {
        kind: ErrorKind::UnsupportedShape,
        position: SourcePosition::Record,
        message: "the names generated for this record collide"@,
    }
}

impl GenerationError {
    pub fn malformed_default(field: usize, index: usize) -> (e: GenerationError)
        ensures
            e.deep_view() == malformed_default(field, index),
    {
        GenerationError {
            kind: ErrorKind::MalformedDefaultAttribute,
            position: SourcePosition::Annotation { field, index },
            message: String::from_str("Expected `#[default(\u{2026})]`"),
        }
    }

    pub fn unknown_param_kind(index: usize) -> (e: GenerationError)
        ensures
            e.deep_view() == unknown_param_kind(index),
    {
        GenerationError {
            kind: ErrorKind::UnsupportedShape,
            position: SourcePosition::GenericParam { index },
            message: String::from_str("generic parameter of an unsupported kind"),
        }
    }

    pub fn colliding_names() -> (e: GenerationError)
        ensures
            e.deep_view() == colliding_names(),
    {
        GenerationError {
            kind: ErrorKind::UnsupportedShape,
            position: SourcePosition::Record,
            message: String::from_str("the names generated for this record collide"),
        }
    }
}

} // verus!

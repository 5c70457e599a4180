//! Type-state builders, generated.
//!
//! From the description of a record this crate generates the declarations
//! of a builder family: a builder type that carries one tag for each field
//! of the record, two marker types for each field to fill the tag with, a
//! creation, one setter for each field, a checked and an unchecked finalize,
//! and raw access to the storage. The tags make the type of a builder say
//! which fields were set, so that the checked finalize can be declared only
//! on the builders in which every field without a default was set.
//!
//! The generation runs in stages, each a module: [`fields`] brings the
//! fields into canonical form, [`generics`] plans the parameter lists,
//! [`tags`] names the markers, [`builder`], [`setters`], [`defaults`],
//! [`finalize`] and [`raw`] emit the declarations, and [`generate`] puts
//! them together. What the declarations mean is stated in [`typestate`],
//! on which builders an operation is offered, and in [`state`] and
//! [`operations`], what the operations do to a builder. [`laws`] proves of
//! every generated family that the checked finalize is within reach exactly
//! when every field without a default was set, in whatever order.
//!
//! The declarations are abstract: names, parameter lists and tokens kept as
//! text. Reading a record off source text and writing the declarations out
//! as source text are left to the caller.

use vstd::prelude::*;

pub mod builder;
pub mod defaults;
pub mod error;
pub mod fields;
pub mod finalize;
pub mod generate;
pub mod generics;
pub mod laws;
pub mod model;
pub mod operations;
pub mod raw;
pub mod search;
pub mod setters;
pub mod state;
pub mod tags;
pub mod text;
pub mod typestate;

pub use crate::generate::{derive_builder, BuilderFamily};

verus! {

/// A record that has a generated builder. `builder` creates the builder
/// that the chain of setter calls starts from; the chain ends in the
/// finished record.
pub trait Buildable {
    type Builder;

    fn builder() -> Self::Builder;
}

} // verus!

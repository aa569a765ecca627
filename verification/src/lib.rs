//! Code generation for new-type wrappers that are stored as ORM columns.
//!
//! A wrapper is described by a [`RawDefinition`] and a [`Configuration`]. From
//! them [`derive_newtype_inner`] picks a [`ConvertType`] and emits, as Rust
//! source text, the trait impls that make the wrapper usable as a column
//! value.

pub mod config;
pub mod definition;
pub mod emit;
pub mod ident;
pub mod inner;
pub mod laws;
pub mod semantics;

pub use config::{Configuration, ConfigurationError};
pub use definition::{Generics, RawDefinition, Shape};
pub use inner::{
    derive_newtype_inner, derive_newtype_with, emit, get_and_check_transparent_type, resolve,
    ConvertType, GeneratedModule, Inbound, Outbound,
};

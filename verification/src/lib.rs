//! Derivation engine for "partial" twins of record types.
//!
//! Given a structural description of a record type with named fields, the
//! engine derives three artifacts:
//!
//! - a *shadow type*: a twin of the record in which every field type is
//!   wrapped in `Option` unless it already is an `Option`;
//! - a *merge* operation over two shadow instances, left-biased per field;
//! - an *error taxonomy* (one case per originally-required field) together
//!   with a fallible reconstruction of the original record from a shadow
//!   instance, which fails on the first missing required field.
//!
//! The engine is a pure transform over the structural model in [`model`];
//! rendering the artifacts to source text and reading a host compiler's type
//! representation are left to the surrounding tooling.

pub mod artifacts;
pub mod classify;
pub mod engine;
pub mod instance;
pub mod merge;
pub mod model;
pub mod names;
pub mod reconstruct;
pub mod shadow;

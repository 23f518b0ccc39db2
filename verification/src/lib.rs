//! Schema and literal-value model of a layered configuration library.
//!
//! [`meta`] describes a configuration structure as a tree of named fields and
//! holds the typed literals that serve as defaults. [`walk`] lists the leaves
//! of such a tree with their dotted paths. [`error`] is the closed set of
//! failures that assembling a configuration can report. [`text`] holds the
//! mathematical definitions of the texts that the others produce: decimal
//! numbers and dotted paths.

pub mod text;
pub mod meta;
pub mod walk;
pub mod error;

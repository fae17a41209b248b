//! A predicate push-down translator.
//!
//! A query engine evaluates boolean filter expressions over graph elements.
//! When the underlying storage backend understands an equivalent native
//! condition language, a filter can be *pushed down*: executed inside the
//! storage layer instead of row by row inside the engine. This crate performs
//! that translation step — it maps operands, comparison predicates and the
//! boolean connectives AND/OR/NOT from the engine's predicate algebra into
//! the storage backend's condition algebra, and decides when a predicate is
//! *not* translatable and must fall back to engine-side evaluation.
//!
//! The translation is faithful and conservative: it never reorders or
//! simplifies predicates, and a connective is pushed down only when every
//! part of it is (both-or-nothing for AND and OR, full fallback under NOT).

pub mod condition;
pub mod error;
pub mod expr;
pub mod laws;
pub mod translate;

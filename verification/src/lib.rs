//! Semantic-analysis core of a small, statically typed, ahead-of-time
//! compiled language: it lowers one file's syntax tree into a flat,
//! arena-indexed item tree with duplicate-definition diagnostics, builds
//! dual-namespace (type / value) scopes with a shared built-in scope of
//! primitive types, resolves syntactic visibility markers into comparable
//! visibility values, maps semantic entities back to their originating
//! syntax nodes on demand, and decides whether an expression denotes a
//! mutable place.
//!
//! Every derived fact is a pure function of its inputs; memoization and
//! parallel evaluation are the concern of a surrounding query engine.

pub mod arena;
pub mod ids;
pub mod name;
pub mod syntax;
pub mod type_ref;
pub mod item_tree;
pub mod lower;
pub mod item_scope;
pub mod body;
pub mod mut_bind;
pub mod db;
pub mod code_model;
pub mod source;
pub mod const_def;
pub mod visibility;

//! A dataflow plan runner.
//!
//! A plan document describes a pipeline as a set of typed operator nodes
//! ("tools") wired together by labeled edges ("links").  This crate compiles
//! such a plan into an executable dependency graph, decides in which order
//! and in which synchronization wave each node runs, compiles the declarative
//! expression language into the columnar engine's expression form, and runs
//! the in-memory transforms.  File input and output, and the driving of
//! concurrent tasks, live outside the library.
//!
//! The load-bearing guarantees are stated and proved where they live:
//! the expression compiler's exact output shape and the left-associated
//! reduction law in [`expr`]; the builder's validation of identifiers,
//! endpoints and input slots in [`workflow`]; and the scheduler's readiness
//! discipline -- a node executes exactly once its inputs are all in, and a
//! well-formed acyclic plan runs in one wave per level of its longest
//! producer chain -- in [`workflow`] as well.

pub mod actions;
pub mod config;
pub mod engine;
pub mod errors;
pub mod expr;
pub mod graph;
pub mod plans;
pub mod tool;
pub mod workflow;

//! Statement-execution core of a SQL database engine.
//!
//! A SQL string is parsed into a queue of statements, each statement is
//! planned into a typed logical plan, and the plan is dispatched either to
//! the data-flow query path or to a catalog-mutating physical operator.
//! Catalog changes go through a single mutator that enforces optimistic
//! concurrency with a version number; DDL plans are self-describing
//! extension nodes that round-trip through a byte encoding.

pub mod error;

pub mod data;

pub mod numfmt;

pub mod expr;

pub mod relational;

pub mod logical;

pub mod codec;

pub mod catalog;

pub mod storage;

pub mod physical;

pub mod parse;

pub mod session;

pub mod planner;

pub mod executor;

//! A lazy query pipeline over tabular data: an ordered, undoable log of
//! operations is folded into one plan of a dataframe engine, previewed,
//! summarized and exported. Only the data source and the log are ever kept;
//! every table is derived from them again.
//!
//! The engine, the CSV writer and a few functions of the standard library
//! are reached through bindings that are believed, not proved; they stand in
//! `engine`, `schema`, `frame`, `records`, `numbers`, and at the calls of
//! `datasource` and `persistence` that need them. Everything else is
//! verified against them.
//!
//! Every function is marked `#[inline]`, so that a program links of the
//! engine only what the functions it calls reach.

pub mod cells;
pub mod commands;
pub mod data_loader;
pub mod datasource;
pub mod detection;
pub mod engine;
pub mod enums;
pub mod execution;
pub mod frame;
pub mod numbers;
pub mod operations;
pub mod palette;
pub mod persistence;
pub mod pipeline;
pub mod plan_steps;
pub mod plots;
pub mod preview;
pub mod query_engine;
pub mod records;
pub mod schema;
pub mod state;
pub mod text;

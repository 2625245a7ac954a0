//! A coordination store for asynchronous content extraction.
//!
//! The store keeps content and the repositories it belongs to, an outbox of
//! extraction events, a queue of extraction work, and a completion marker
//! for each content item and extractor binding. Every identifier of a
//! domain row is derived from what the row means, so that storing the same
//! thing twice leaves one row.
//!
//! - [`identity`] derives identifiers.
//! - [`types`], [`work`], [`event`], [`json`], [`completion`], [`vectordbs`]
//!   and [`error`] hold the values that go in and out; [`entity`] holds the
//!   rows, and [`rows`] makes the row of each thing that is stored.
//! - [`table`] is a table of rows with distinct keys.
//! - [`state`] says what the store holds and what each operation makes of
//!   it; [`operation`] names the operations, so that runs of them can be
//!   spoken of; [`persistence`] is the store itself.
//! - [`query`] writes the statements that ask a relational store for the
//!   same.
//! - [`laws`] proves what holds of the store whatever is asked of it.

pub mod assoc;
pub mod completion;
pub mod entity;
pub mod error;
pub mod event;
pub mod identity;
pub mod json;
pub mod laws;
pub mod operation;
pub mod persistence;
pub mod query;
pub mod rows;
pub mod state;
pub mod table;
pub mod types;
pub mod vectordbs;
pub mod views;
pub mod work;

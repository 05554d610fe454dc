//! Cricket match listings: reading the documents of a match feed,
//! flattening them into match records, choosing among the records and
//! showing them as a table.
//!
//! - [`json`]: JSON documents as values, read with `serde_json`.
//! - [`field`], [`decode`], [`schema`]: the records of the feed, read out of
//!   JSON values; [`fault`]: what is reported where a value does not hold
//!   its record.
//! - [`model`]: the records and their mathematical models.
//! - [`normalize`]: from a document to the flat sequence of its matches.
//! - [`select`]: choosing matches by their series.
//! - [`present`], [`schedule`], [`table`]: matches as rows, drawn as a
//!   table with `tabled`; starts of matches written with `chrono`.
//! - [`text`]: decimal numerals and searching in text.
pub mod decode;
pub mod fault;
pub mod field;
pub mod json;
pub mod model;
pub mod normalize;
pub mod present;
pub mod schedule;
pub mod schema;
pub mod select;
pub mod table;
pub mod text;

//! Scan engine of a read-only connector that resolves e-mail addresses to
//! public Gravatar profiles and hands them to a host query engine as rows.
//!
//! - `lookup`: from a raw key to its lookup identifier and address.
//! - `predicate`: the lookup keys among the filters of a query.
//! - `fetch`: the request for a key, and what a response means.
//! - `json`, `record`, `cell`: profile records and their projection into
//!   the columns of a row.
//! - `buffer`: the records of a scan and the cursor into them.
//! - `connector`: the object that a host drives through a scan.
//! - `lifecycle`: laws that hold of every scan.
//! - `error`, `text`: failures, and small text routines.
//!
//! The library does no input or output: the host sends the requests that
//! the connector asks for and hands back the responses.

pub mod buffer;
pub mod cell;
pub mod connector;
pub mod error;
pub mod fetch;
pub mod json;
pub mod lifecycle;
pub mod lookup;
pub mod predicate;
pub mod record;
pub mod text;

//! Tools for comparing the record counts that a fixed set of catalog searches
//! returns from two deployments of the same catalog, the current one and the
//! future one.
//!
//! - [`search`] holds the searches and builds the URL that asks a deployment
//!   for one of them.
//! - [`parse_json`] reads the count out of the text of a response.
//! - [`fetch`] judges what a deployment answered: a count or a failure.
//! - [`comparison`] classifies the change from the old count to the new one.
//! - [`report`] writes the line that shows the outcome for a search, and
//!   the report of a run.
//!
//! Sending the requests is left to the caller.

pub mod comparison;
pub mod fetch;
pub mod parse_json;
pub mod report;
pub mod search;

pub use comparison::RecordCountComparison;
pub use search::{searches, Search};

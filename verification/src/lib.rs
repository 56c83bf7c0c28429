//! Verified core of a paginated marketplace-listing aggregator.
//!
//! The library holds the decision logic of the fetcher: which pages to
//! request, how a single page fetch reacts to each network outcome
//! (retry, degrade, fail), and how per-page results are tallied into the
//! reported totals. The surrounding binary performs the HTTP requests and
//! hands the outcomes to this logic as plain values.

pub mod fetch;
pub mod orchestrate;
pub mod structs;

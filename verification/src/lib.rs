//! Core of an hourly exchange-rate ingestion pipeline.
//!
//! One ingestion cycle normalizes "now" to the start of its hour, reserves a
//! row for that bucket in the rates table, fetches a snapshot of exchange
//! rates from the provider, and fills the reserved row with the fetched
//! pairs. The reserve happens before the fetch so that every attempted cycle
//! leaves an auditable row even when the network call fails; a row whose
//! `pairs` column stays `NULL` is the intended trace of such a failure.
//!
//! This crate holds the decision logic of the cycle: the bucket normalizer,
//! the response decoder, the reserve-then-fill semantics of the table, the
//! statement text the writer uses, and the state machine that sequences the
//! steps. The surrounding process performs the store and network calls and
//! feeds their outcomes back as events.

pub mod errors;
pub mod json;
pub mod normalize;
pub mod pipeline;
pub mod snapshot;
pub mod sql;
pub mod store;

//! Aggregated environmental telemetry for one fixed site.
//!
//! The core is a refresh gate with a fixed minimum interval, an hour-bucketed
//! bounded history of snapshots with age-based pruning, and a paged read
//! projection over that history. Fetching and parsing the upstream documents
//! is left to source adapters outside the core; each adapter hands the core a
//! plain optional payload, and an adapter failure degrades to an absent field,
//! never to a failed response.

pub mod clock;
pub mod directions;
pub mod gate;
pub mod history;
pub mod locations;
pub mod page;
pub mod service;
pub mod snapshot;
pub mod utils;

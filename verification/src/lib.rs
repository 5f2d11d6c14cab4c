//! Streaming loader core for Discogs monthly data dumps.
//!
//! A dump is one huge XML document listing artists, labels, masters or
//! releases.  The library consumes a flat stream of pull-parser events,
//! reconstructs flat records with four event-driven state machines, batches
//! them with first-write-wins key deduplication, and turns every full batch
//! into binary bulk-copy write plans.  Reading the compressed file, producing
//! the events and talking to the database stay outside this crate.

pub mod artist;
pub mod error;
pub mod events;
pub mod label;
pub mod master;
pub mod release;
pub mod rows;
pub mod sink;
pub mod sql;
pub mod text;

//! Change-detection core of a live-reloading directory server.
//!
//! The library decides, from plain observations of the filesystem, when a
//! genuine content change has happened: which paths are eligible for
//! tracking, how a file's content is fingerprinted, what the persistent
//! ledger of last-known fingerprints holds, how bursty notifications are
//! coalesced into batches, and which batch yields a reload decision.

pub mod coalescer;
pub mod detector;
pub mod events;
pub mod fingerprint;
pub mod ledger;
pub mod paths;

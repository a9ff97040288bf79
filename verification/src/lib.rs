//! Verified core of an audio-recording submission service.
//!
//! The library models the upload orchestration saga and the token
//! lifecycle that coordinate a transactional database and an object
//! store: single-use consent tokens, recording metadata with unique
//! normalized names, audio format identification and MIME resolution,
//! compensation on partial failure, and aggregation of deletion
//! errors.  All input/output (HTTP, SQL, object storage, the audio
//! probe) stays outside; the functions here take the outcomes of those
//! calls as plain values and decide every step.

pub mod format;
pub mod errors;
pub mod ids;
pub mod label;
pub mod ledger;
pub mod mime;
pub mod normalization;
pub mod objects;
pub mod probe;
pub mod recording;
pub mod rejection;
pub mod rows;
pub mod saga;
pub mod table;
pub mod urls;

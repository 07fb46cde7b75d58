//! Verified core of a file ingestion and retrieval service.
//!
//! Clients upload files; the service stores the original bytes, derives a
//! fixed-size preview image, and records metadata in an index ordered by
//! creation time.  Clients later page through the records (newest first) and
//! fetch either the original or the preview back by identifier.
//!
//! The modules here hold the verified logic: the metadata index with its
//! ordering invariant, media-type resolution, preview derivation, the ingest
//! state machine, and the retrieval paths.  Streaming I/O and HTTP plumbing
//! live outside the library and call into it with plain values.

pub mod database;
pub mod errors;
pub mod ingest;
pub mod media;
pub mod record;
pub mod retrieval;
pub mod state;
pub mod thumbnail;

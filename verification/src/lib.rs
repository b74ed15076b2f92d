//! Core of a passive telemetry-ingestion endpoint: requests for a 1x1
//! tracking image carry usage-event fields in their URL; the library decodes
//! and normalizes those fields, builds the row to persist for each protocol
//! version, validates the persistence outcome, and synthesizes the HTTP
//! response. All I/O (HTTP serving, the database connection) lives outside.

pub mod decode;
pub mod dto;
pub mod normalize;
pub mod persist;
pub mod record;
pub mod response;
pub mod router;

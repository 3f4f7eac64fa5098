//! Verified core of an S3-compatible object store: request decisions,
//! listing, chunk framing, checksums and the records kept per object.

pub mod checksum;
pub mod config;
pub mod content_type;
pub mod chunk_decoder;
pub mod decimal;
pub mod entity;
pub mod errors;
pub mod handlers;
pub mod hexcode;
pub mod ingest;
pub mod listing;
pub mod multipart;
pub mod reads;
pub mod requests;
pub mod routing;
pub mod text;
pub mod uuid_ext;
pub mod versioning;

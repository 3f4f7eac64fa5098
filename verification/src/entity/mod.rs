//! The records the store keeps, one module per table. Identifiers are held as
//! the 128-bit value of their UUID (zero is the nil UUID) and instants as an
//! integer timestamp.

pub mod bucket;
pub mod chunk;
pub mod object;
pub mod owner;
pub mod tag;
pub mod tag_set;
pub mod upload;
pub mod upload_part;
pub mod version;
pub mod version_part;
pub mod quoting;

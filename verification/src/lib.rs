//! Result-export layer for a spatial-omics analysis pipeline.
//!
//! The crate turns in-memory analysis artifacts into persisted byte streams:
//! typed tables encoded as delimited text, gzip-compressed delimited text or
//! columnar parquet, and cell-boundary geometry encoded as a gzip-compressed
//! GeoJSON `FeatureCollection`. All encoding decisions (format dispatch,
//! column layout, separator placement) are verified; the byte-level work of
//! the table and compression codecs is delegated to outside crates behind
//! trusted wrappers.

pub mod assemble;
pub mod codec;
pub mod format;
pub mod geojson;
pub mod json;
pub mod num;
pub mod table;
pub mod vote;

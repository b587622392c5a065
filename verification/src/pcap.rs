//! Decoding of capture files: the byte cursor, the header codecs and the scan.

pub mod bytes;
pub mod error;
pub mod headers;
pub mod laws;
pub mod model;
pub mod reader;

//! Row-oriented msgpack chunk encoder: rows of named fields are encoded and
//! gzip-compressed into a chunk ready for bulk upload.

pub mod msgpack;
pub mod sink;
pub mod table_import;

//! Metadata that accompanies the export of a column family and its later
//! import: the name of the comparator that orders its keys, and the list of
//! the live files that hold its data.
//!
//! The storage engine keeps this record on its own side of a foreign-function
//! boundary. This crate holds the record in the form in which it crosses that
//! boundary, and converts between that form and plain Rust values.

pub mod c_string;
pub mod error;
pub mod live_file;
pub mod metadata;
pub mod text;

pub use crate::c_string::NulTerminated;
pub use crate::error::MetadataError;
pub use crate::live_file::LiveFile;
pub use crate::live_file::RawKey;
pub use crate::live_file::RawLiveFile;
pub use crate::metadata::ExportImportFilesMetaData;

pub mod json_metadata;
pub mod sqlite_metadata;

pub use json_metadata::JsonMetadata;
pub use sqlite_metadata::{SqliteMetadata, parse_status};

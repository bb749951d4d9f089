//! A storage-agnostic engine that moves a target between migration versions
//! and keeps track, in a small metadata record, of the version applied and of
//! whether the target is in a consistent state.

pub mod helpers;
pub mod metadata;
pub mod plan;
pub mod run;
pub mod store;

pub use helpers::{init_meta, init_meta_datetimes_if_empty, meta_loaded};
pub use metadata::{MetaStatus, Metadata};
pub use plan::{Direction, latest_version, plan_steps};
pub use run::{Action, MigrationRun};
pub use store::{JsonMetadata, SqliteMetadata, parse_status};

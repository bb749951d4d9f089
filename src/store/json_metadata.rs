use vstd::prelude::*;

use crate::helpers::init_meta;
use crate::metadata::{MetaRecord, MetaStatus, Metadata};

verus! {

/// Metadata kept as a JSON document; the file itself is read and written
/// around the library.
#[derive(Debug, Clone)]
pub struct JsonMetadata {
    pub version: i32,
    pub app_version: String,
    pub status: MetaStatus,
    pub created_at: String,
    pub updated_at: String,
}

impl Default for JsonMetadata {
    fn default() -> (r: Self)
        ensures
            r.record() == (MetaRecord {
                version: 0,
                app_version: Seq::empty(),
                status: MetaStatus::Clean,
                created_at: Seq::empty(),
                updated_at: Seq::empty(),
            }),
    {
        JsonMetadata {
            version: 0,
            app_version: String::new(),
            status: MetaStatus::Clean,
            created_at: String::new(),
            updated_at: String::new(),
        }
    }
}

impl JsonMetadata {
    /// The record that a store creates where none exists yet: version 0,
    /// `Clean`, tagged with `app_version`, created and updated at one
    /// fresh timestamp.
    pub fn init_new(app_version: String) -> (r: Self)
        ensures
            r.record().version == 0,
            r.record().status == MetaStatus::Clean,
            r.record().app_version == app_version@,
            r.record().created_at.len() > 0,
            r.record().updated_at == r.record().created_at,
    {
        init_meta(Self::default(), app_version)
    }
}

impl Metadata for JsonMetadata {
    open spec fn record(&self) -> MetaRecord {
        MetaRecord {
            version: self.version,
            app_version: self.app_version@,
            status: self.status,
            created_at: self.created_at@,
            updated_at: self.updated_at@,
        }
    }

    fn version(&self) -> (r: i32) {
        self.version
    }

    fn version_mut(&mut self) -> (r: &mut i32) {
        &mut self.version
    }

    fn app_version(&self) -> (r: &str) {
        self.app_version.as_str()
    }

    fn app_version_mut(&mut self) -> (r: &mut String) {
        &mut self.app_version
    }

    fn status(&self) -> (r: MetaStatus) {
        self.status
    }

    fn status_mut(&mut self) -> (r: &mut MetaStatus) {
        &mut self.status
    }

    fn created_at(&self) -> (r: &str) {
        self.created_at.as_str()
    }

    fn created_at_mut(&mut self) -> (r: &mut String) {
        &mut self.created_at
    }

    fn updated_at(&self) -> (r: &str) {
        self.updated_at.as_str()
    }

    fn updated_at_mut(&mut self) -> (r: &mut String) {
        &mut self.updated_at
    }
}

} // verus!

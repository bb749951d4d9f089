use vstd::prelude::*;

use crate::helpers::init_meta;
use crate::metadata::{MetaRecord, MetaStatus, Metadata, status_name};

verus! {

/// Metadata kept as the single row of a SQLite table; the database itself is
/// read and written around the library.
#[derive(Debug, Clone)]
pub struct SqliteMetadata {
    pub version: i32,
    pub app_version: String,
    pub status: MetaStatus,
    pub created_at: String,
    pub updated_at: String,
}

impl Default for SqliteMetadata {
    fn default() -> (r: Self)
        ensures
            r.record() == (MetaRecord {
                version: 0,
                app_version: Seq::empty(),
                status: MetaStatus::Clean,
                created_at: Seq::empty(),
                updated_at: Seq::empty(),
            }),
    {
        SqliteMetadata {
            version: 0,
            app_version: String::new(),
            status: MetaStatus::Clean,
            created_at: String::new(),
            updated_at: String::new(),
        }
    }
}

impl SqliteMetadata {
    /// The record that a store creates where none exists yet: version 0,
    /// `Clean`, tagged with `app_version`, created and updated at one
    /// fresh timestamp.
    pub fn init_new(app_version: String) -> (r: Self)
        ensures
            r.record().version == 0,
            r.record().status == MetaStatus::Clean,
            r.record().app_version == app_version@,
            r.record().created_at.len() > 0,
            r.record().updated_at == r.record().created_at,
    {
        init_meta(Self::default(), app_version)
    }
}

impl Metadata for SqliteMetadata {
    open spec fn record(&self) -> MetaRecord {
        MetaRecord {
            version: self.version,
            app_version: self.app_version@,
            status: self.status,
            created_at: self.created_at@,
            updated_at: self.updated_at@,
        }
    }

    fn version(&self) -> (r: i32) {
        self.version
    }

    fn version_mut(&mut self) -> (r: &mut i32) {
        &mut self.version
    }

    fn app_version(&self) -> (r: &str) {
        self.app_version.as_str()
    }

    fn app_version_mut(&mut self) -> (r: &mut String) {
        &mut self.app_version
    }

    fn status(&self) -> (r: MetaStatus) {
        self.status
    }

    fn status_mut(&mut self) -> (r: &mut MetaStatus) {
        &mut self.status
    }

    fn created_at(&self) -> (r: &str) {
        self.created_at.as_str()
    }

    fn created_at_mut(&mut self) -> (r: &mut String) {
        &mut self.created_at
    }

    fn updated_at(&self) -> (r: &str) {
        self.updated_at.as_str()
    }

    fn updated_at_mut(&mut self) -> (r: &mut String) {
        &mut self.updated_at
    }
}

} // verus!

verus! {

/// `s` is exactly the text `t`.
fn same_text(s: &str, t: &str) -> (r: bool)
    ensures
        r == (s@ == t@),
{
    let n = s.unicode_len();
    if n != t.unicode_len() {
        return false;
    }
    let mut i: usize = 0;
    while i < n
        invariant
            n == s@.len(),
            n == t@.len(),
            i <= n,
            forall|j: int| 0 <= j < i ==> s@[j] == t@[j],
        decreases n - i,
    {
        if s.get_char(i) != t.get_char(i) {
            return false;
        }
        i += 1;
    }
    assert(s@ == t@);
    true
}

/// The status a stored name stands for: `Migrating` and `Failed` by their
/// names, anything else `Clean`.
pub open spec fn status_of_name(s: Seq<char>) -> MetaStatus {
    if s == status_name(MetaStatus::Migrating) {
        MetaStatus::Migrating
    } else if s == status_name(MetaStatus::Failed) {
        MetaStatus::Failed
    } else {
        MetaStatus::Clean
    }
}

/// The status stored as `s` in the metadata table.
pub fn parse_status(s: &str) -> (r: MetaStatus)
    ensures
        r == status_of_name(s@),
{
    proof {
        lemma_status_names_differ();
    }
    if same_text(s, "Migrating") {
        MetaStatus::Migrating
    } else if same_text(s, "Failed") {
        MetaStatus::Failed
    } else {
        MetaStatus::Clean
    }
}

/// The three status names are distinct.
proof fn lemma_status_names_differ()
    ensures
        status_name(MetaStatus::Clean) != status_name(MetaStatus::Migrating),
        status_name(MetaStatus::Clean) != status_name(MetaStatus::Failed),
        status_name(MetaStatus::Migrating) != status_name(MetaStatus::Failed),
{
    reveal_strlit("Clean");
    reveal_strlit("Migrating");
    reveal_strlit("Failed");
    assert(status_name(MetaStatus::Clean).len() == 5);
    assert(status_name(MetaStatus::Migrating).len() == 9);
    assert(status_name(MetaStatus::Failed).len() == 6);
}

/// A status written under its name reads back as itself.
pub proof fn lemma_status_round_trip(st: MetaStatus)
    ensures
        status_of_name(status_name(st)) == st,
{
    lemma_status_names_differ();
}

} // verus!

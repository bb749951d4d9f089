use vstd::prelude::*;

verus! {

/// The consistency status of a migrated target.
#[derive(Debug, Clone, Copy, PartialEq, Eq, Structural)]
pub enum MetaStatus {
    /// No run in progress, and the last one (if any) succeeded.
    Clean,
    /// A run is in progress.
    Migrating,
    /// The last run stopped on a failing migration.
    Failed,
}

impl Default for MetaStatus {
    fn default() -> (r: Self)
        ensures
            r == MetaStatus::Clean,
    {
        MetaStatus::Clean
    }
}

/// The text under which a status is persisted.
pub open spec fn status_name(s: MetaStatus) -> Seq<char> {
    match s {
        MetaStatus::Clean => "Clean"@,
        MetaStatus::Migrating => "Migrating"@,
        MetaStatus::Failed => "Failed"@,
    }
}

/// The five fields of a metadata record, as values.
pub ghost struct MetaRecord {
    pub version: i32,
    pub app_version: Seq<char>,
    pub status: MetaStatus,
    pub created_at: Seq<char>,
    pub updated_at: Seq<char>,
}

impl MetaRecord {
    /// `after` is this record with `updated_at` set to a fresh, non-empty
    /// timestamp and every other field kept.
    pub open spec fn restamped(self, after: MetaRecord) -> bool {
        &&& after == (MetaRecord { updated_at: after.updated_at, ..self })
        &&& after.updated_at.len() > 0
    }

    pub open spec fn with_version(self, v: i32) -> MetaRecord {
        MetaRecord { version: v, ..self }
    }

    pub open spec fn with_app_version(self, a: Seq<char>) -> MetaRecord {
        MetaRecord { app_version: a, ..self }
    }

    pub open spec fn with_status(self, s: MetaStatus) -> MetaRecord {
        MetaRecord { status: s, ..self }
    }
}

/// Relies on chrono's `Utc::now` and `DateTime::to_rfc3339`: the current UTC
/// time written as RFC 3339 text, which always holds at least a date.
#[verifier::external_body]
pub(crate) fn now_rfc3339() -> (r: String)
    ensures
        r@.len() > 0,
{
    chrono::Utc::now().to_rfc3339()
}

/// A durable record of where a migrated target stands.
pub trait Metadata {
    /// The record's fields.
    spec fn record(&self) -> MetaRecord;

    /// Migration version.
    fn version(&self) -> (r: i32)
        ensures
            r == self.record().version,
    ;

    /// The version, to write in place (without touching `updated_at`).
    fn version_mut(&mut self) -> (r: &mut i32)
        ensures
            *r == old(self).record().version,
            final(self).record() == old(self).record().with_version(*final(r)),
    ;

    /// Application version tag.
    fn app_version(&self) -> (r: &str)
        ensures
            r@ == self.record().app_version,
    ;

    /// The application version, to write in place (without touching `updated_at`).
    fn app_version_mut(&mut self) -> (r: &mut String)
        ensures
            r@ == old(self).record().app_version,
            final(self).record() == old(self).record().with_app_version(final(r)@),
    ;

    /// Migration status.
    fn status(&self) -> (r: MetaStatus)
        ensures
            r == self.record().status,
    ;

    /// The status, to write in place (without touching `updated_at`).
    fn status_mut(&mut self) -> (r: &mut MetaStatus)
        ensures
            *r == old(self).record().status,
            final(self).record() == old(self).record().with_status(*final(r)),
    ;

    /// Creation date (first use).
    fn created_at(&self) -> (r: &str)
        ensures
            r@ == self.record().created_at,
    ;

    /// The creation date, to write in place (without touching `updated_at`).
    fn created_at_mut(&mut self) -> (r: &mut String)
        ensures
            r@ == old(self).record().created_at,
            final(self).record() == (MetaRecord { created_at: final(r)@, ..old(self).record() }),
    ;

    /// Last update date.
    fn updated_at(&self) -> (r: &str)
        ensures
            r@ == self.record().updated_at,
    ;

    /// The last update date, to write in place.
    fn updated_at_mut(&mut self) -> (r: &mut String)
        ensures
            r@ == old(self).record().updated_at,
            final(self).record() == (MetaRecord { updated_at: final(r)@, ..old(self).record() }),
    ;

    /// The status as text.
    fn to_status_str(&self) -> (r: &str)
        ensures
            r@ == status_name(self.record().status),
    {
        match self.status() {
            MetaStatus::Clean => "Clean",
            MetaStatus::Migrating => "Migrating",
            MetaStatus::Failed => "Failed",
        }
    }

    /// Sets `updated_at` to the current time.
    fn touch_updated(&mut self)
        ensures
            old(self).record().restamped(final(self).record()),
    {
        *self.updated_at_mut() = now_rfc3339();
    }

    /// Sets the version and updates `updated_at`.
    fn set_version(&mut self, v: i32)
        ensures
            old(self).record().with_version(v).restamped(final(self).record()),
    {
        *self.version_mut() = v;
        self.touch_updated();
    }

    /// Sets the application version and updates `updated_at`.
    fn set_app_version(&mut self, v: String)
        ensures
            old(self).record().with_app_version(v@).restamped(final(self).record()),
    {
        *self.app_version_mut() = v;
        self.touch_updated();
    }

    /// Sets the status and updates `updated_at`.
    fn set_status(&mut self, s: MetaStatus)
        ensures
            old(self).record().with_status(s).restamped(final(self).record()),
    {
        *self.status_mut() = s;
        self.touch_updated();
    }

    /// Sets the status to `Clean` and updates `updated_at`.
    fn mark_clean(&mut self)
        ensures
            old(self).record().with_status(MetaStatus::Clean).restamped(final(self).record()),
    {
        self.set_status(MetaStatus::Clean);
    }

    /// Sets the status to `Migrating` and updates `updated_at`.
    fn mark_migrating(&mut self)
        ensures
            old(self).record().with_status(MetaStatus::Migrating).restamped(
                final(self).record(),
            ),
    {
        self.set_status(MetaStatus::Migrating);
    }

    /// Sets the status to `Failed` and updates `updated_at`.
    fn mark_failed(&mut self)
        ensures
            old(self).record().with_status(MetaStatus::Failed).restamped(final(self).record()),
    {
        self.set_status(MetaStatus::Failed);
    }
}

} // verus!

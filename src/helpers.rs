use vstd::prelude::*;

use crate::metadata::{MetaRecord, MetaStatus, Metadata, now_rfc3339};

verus! {

/// `after` is `before` with its timestamps populated: unchanged when it
/// already has a creation date, else with `created_at` and `updated_at` both
/// set to one fresh, non-empty timestamp.
pub open spec fn timestamps_populated(before: MetaRecord, after: MetaRecord) -> bool {
    if before.created_at.len() == 0 {
        &&& after.created_at.len() > 0
        &&& after == (MetaRecord {
            created_at: after.created_at,
            updated_at: after.created_at,
            ..before
        })
    } else {
        after == before
    }
}

/// Fix-up run on every record a store loads: fills in missing timestamps.
pub fn meta_loaded<M: Metadata>(meta: M) -> (r: M)
    ensures
        timestamps_populated(meta.record(), r.record()),
        meta.record().created_at.len() > 0 ==> r == meta,
{
    let mut meta = meta;
    init_meta_datetimes_if_empty(&mut meta);
    meta
}

/// Initializes `created_at` and `updated_at` to the same current time if
/// `created_at` is empty; does nothing otherwise.
pub fn init_meta_datetimes_if_empty<M: Metadata>(meta: &mut M)
    ensures
        timestamps_populated(old(meta).record(), final(meta).record()),
        old(meta).record().created_at.len() > 0 ==> *final(meta) == *old(meta),
{
    if meta.created_at().is_empty() {
        let now = now_rfc3339();
        *meta.created_at_mut() = now.clone();
        *meta.updated_at_mut() = now;
    }
}

/// Makes `meta` the record a store creates where none exists yet: version 0,
/// `Clean`, tagged with `app_version`, and (when it had none) created and
/// updated at one fresh timestamp.
pub fn init_meta<M: Metadata>(meta: M, app_version: String) -> (r: M)
    ensures
        r.record().version == 0,
        r.record().status == MetaStatus::Clean,
        r.record().app_version == app_version@,
        meta.record().created_at.len() == 0 ==> r.record().created_at.len() > 0
            && r.record().updated_at == r.record().created_at,
        meta.record().created_at.len() > 0 ==> r.record().created_at == meta.record().created_at
            && r.record().updated_at.len() > 0,
{
    let mut meta = meta;
    meta.set_version(0);
    meta.set_status(MetaStatus::Clean);
    meta.set_app_version(app_version);
    init_meta_datetimes_if_empty(&mut meta);
    meta
}

} // verus!

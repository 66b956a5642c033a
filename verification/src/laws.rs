//! What holds of the cache's operations taken together, proved from the
//! definitions that their contracts are stated in.

use vstd::prelude::*;
use crate::cache::{
    changed, refreshed, stale, CacheError, CacheView, StoreError, MAX_AGE_SECONDS,
};
use crate::process::{patched, ProcessView};
use crate::process_map::{
    has_name, lemma_merged_distinct, lemma_patched_lookup, lemma_upsert_lookup,
    lemma_without_lookup, lookup, merged, names_distinct,
};
use crate::protocol::{
    begun, change_of, fingerprint_judged, freshness_judged, loaded_step, subject, written_step,
    RequestView, StepView,
};

verus! {

/// Loading keeps, of the records that share a name, the last: a record
/// after which the list holds no other of its name is the one found under
/// that name. And a name is known after the load just when the list holds a
/// record of it.
pub proof fn law_load_keeps_last_of_a_name(records: Seq<ProcessView>, name: Seq<char>)
    ensures
        has_name(merged(records), name) == has_name(records, name),
        forall|i: int|
            0 <= i < records.len() && (#[trigger] records[i]).name == name && (forall|j: int|
                i < j < records.len() ==> (#[trigger] records[j]).name != name) ==> lookup(
                merged(records),
                name,
            ) == Some(records[i]),
    decreases records.len(),
{
    if records.len() > 0 {
        let front = records.drop_last();
        let last = records.last();
        law_load_keeps_last_of_a_name(front, name);
        lemma_merged_distinct(front);
        lemma_upsert_lookup(merged(front), last, name);
        if has_name(records, name) && last.name != name {
            let w = choose|w: int| 0 <= w < records.len() && (#[trigger] records[w]).name == name;
            assert(front[w].name == name);
        }
        assert forall|i: int|
            0 <= i < records.len() && (#[trigger] records[i]).name == name && (forall|j: int|
                i < j < records.len() ==> (#[trigger] records[j]).name != name) implies lookup(
            merged(records),
            name,
        ) == Some(records[i]) by {
            if i < records.len() - 1 {
                assert(front[i].name == name);
            }
        }
    }
}

/// A record that has been added is found under its name, just as it was
/// handed in, whatever the load that went before the addition brought. An
/// addition that is refused is refused because the name is taken, and then
/// leaves the snapshot as the load left it.
pub proof fn law_added_record_is_found(
    cache: CacheView,
    record: ProcessView,
    loaded: Result<(Seq<ProcessView>, Seq<char>), StoreError>,
    now: u64,
    stamp: Seq<char>,
)
    requires
        names_distinct(cache.records),
    ensures
        ({
            let (after, step) = loaded_step(
                cache,
                RequestView::Add { record },
                loaded,
                now,
                stamp,
            );
            if step == StepView::CheckFingerprint {
                lookup(after.records, record.name) == Some(record)
            } else {
                &&& step == StepView::Done(Err(CacheError::AlreadyExists))
                &&& after == refreshed(cache, loaded, now)
                &&& has_name(after.records, record.name)
            }
        }),
{
    let fresh = refreshed(cache, loaded, now);
    if let Ok((records, etag)) = loaded {
        lemma_merged_distinct(records);
    }
    law_change_is_found(fresh.records, RequestView::Add { record }, stamp);
}

/// A change touches the record that it names and no other: under every other
/// name the same record is found after the change as before it, and no name
/// comes to stand twice.
pub proof fn law_change_touches_one_name(
    records: Seq<ProcessView>,
    request: RequestView,
    stamp: Seq<char>,
    other: Seq<char>,
)
    requires
        names_distinct(records),
        subject(request) != Some(other),
    ensures
        match change_of(records, request, stamp) {
            Ok(after) => names_distinct(after) && lookup(after, other) == lookup(records, other),
            Err(_) => true,
        },
{
    match request {
        RequestView::Refresh { force } => {},
        RequestView::Add { record } => {
            if !has_name(records, record.name) {
                lemma_upsert_lookup(records, record, other);
            }
        },
        RequestView::Modify { record } => {
            lemma_upsert_lookup(records, record, other);
        },
        RequestView::Delete { name } => {
            lemma_without_lookup(records, name, other);
        },
        RequestView::Patch { name, run, tags } => {
            lemma_patched_lookup(records, name, run, tags, stamp, other);
        },
    }
}

/// What a change leaves under the name it is about: an added or a replaced
/// record as it was handed in, a partially updated record with the supplied
/// fields, the old ones where none was supplied, and the new stamp; nothing
/// after a deletion.
pub proof fn law_change_is_found(records: Seq<ProcessView>, request: RequestView, stamp: Seq<char>)
    requires
        names_distinct(records),
    ensures
        match change_of(records, request, stamp) {
            Ok(after) => match request {
                RequestView::Refresh { force } => after == records,
                RequestView::Add { record } => lookup(after, record.name) == Some(record),
                RequestView::Modify { record } => lookup(after, record.name) == Some(record),
                RequestView::Delete { name } => lookup(after, name).is_none(),
                RequestView::Patch { name, run, tags } => lookup(after, name) == Some(
                    patched(lookup(records, name).unwrap(), run, tags, stamp),
                ),
            },
            Err(_) => true,
        },
{
    match request {
        RequestView::Refresh { force } => {},
        RequestView::Add { record } => {
            if !has_name(records, record.name) {
                lemma_upsert_lookup(records, record, record.name);
            }
        },
        RequestView::Modify { record } => {
            lemma_upsert_lookup(records, record, record.name);
        },
        RequestView::Delete { name } => {},
        RequestView::Patch { name, run, tags } => {
            lemma_patched_lookup(records, name, run, tags, stamp, name);
        },
    }
}

/// The steps that follow a change in memory leave the records alone: the
/// write changes the fingerprint and nothing else, and a write that fails
/// changes nothing.
pub proof fn law_write_keeps_records(cache: CacheView, written: Result<Seq<char>, StoreError>)
    ensures
        written_step(cache, written).0.records == cache.records,
        written_step(cache, written).0.cache_time == cache.cache_time,
        written is Err ==> written_step(cache, written).0 == cache,
{
}

/// Adding a record under a name twice: the second addition is refused
/// because the name is taken, and changes nothing. It leaves the snapshot as
/// the load that went before it left it; if that load failed, the records
/// are those that the first addition left, and a first record that went in is
/// still found as it was.
///
/// This is stated for a store that, when the second addition loads from it,
/// holds a record of that name or cannot be read. A store from which the
/// record has gone in the meantime makes the second addition an ordinary one.
pub proof fn law_second_add_is_refused(
    cache: CacheView,
    first: ProcessView,
    first_loaded: Result<(Seq<ProcessView>, Seq<char>), StoreError>,
    first_now: u64,
    between: CacheView,
    second: ProcessView,
    second_loaded: Result<(Seq<ProcessView>, Seq<char>), StoreError>,
    second_now: u64,
    stamp: Seq<char>,
)
    requires
        names_distinct(cache.records),
        second.name == first.name,
        between.records == loaded_step(
            cache,
            RequestView::Add { record: first },
            first_loaded,
            first_now,
            stamp,
        ).0.records,
        match second_loaded {
            Ok((records, etag)) => has_name(merged(records), first.name),
            Err(_) => true,
        },
    ensures
        ({
            let (once, first_step) = loaded_step(
                cache,
                RequestView::Add { record: first },
                first_loaded,
                first_now,
                stamp,
            );
            let (twice, second_step) = loaded_step(
                between,
                RequestView::Add { record: second },
                second_loaded,
                second_now,
                stamp,
            );
            &&& second_step == StepView::Done(Err(CacheError::AlreadyExists))
            &&& twice == refreshed(between, second_loaded, second_now)
            &&& second_loaded is Err ==> twice.records == once.records
            &&& second_loaded is Err && first_step == StepView::CheckFingerprint ==> lookup(
                twice.records,
                first.name,
            ) == Some(first)
        }),
{
    law_added_record_is_found(cache, first, first_loaded, first_now, stamp);
}

/// A partial update that names neither the run flag nor the tags is refused
/// as an invalid request before anything happens: the snapshot stays as it
/// is, and the operation is over without a call to the store.
pub proof fn law_empty_patch_is_refused(cache: CacheView, name: Seq<char>, now: u64)
    ensures
        begun(cache, RequestView::Patch { name, run: None, tags: None }, now) == (
            cache,
            StepView::Done(Err(CacheError::InvalidRequest)),
        ),
{
}

/// Right after a load has been taken in, the snapshot is not stale, so a
/// refresh that is not forced ends at once. Once more than the maximum age
/// has passed it asks the store, and if the store then shows another
/// fingerprint, the snapshot is loaded again.
pub proof fn law_refresh_resets_staleness(
    cache: CacheView,
    records: Seq<ProcessView>,
    etag: Seq<char>,
    now: u64,
    later: u64,
    remote_etag: Seq<char>,
)
    ensures
        ({
            let fresh = refreshed(cache, Ok((records, etag)), now);
            &&& !stale(fresh.cache_time, now)
            &&& begun(fresh, RequestView::Refresh { force: false }, now) == (
                fresh,
                StepView::Done(Ok(())),
            )
            &&& later - now > MAX_AGE_SECONDS && remote_etag != etag ==> {
                &&& stale(fresh.cache_time, later)
                &&& changed(fresh.etag, Ok(remote_etag))
                &&& begun(fresh, RequestView::Refresh { force: false }, later) == (
                    fresh,
                    StepView::CheckFreshness,
                )
                &&& freshness_judged(fresh, Ok(remote_etag)) == StepView::Load(
                    RequestView::Refresh { force: true },
                )
            }
        }),
{
}

/// When the store's fingerprint is no longer the one the snapshot was loaded
/// with, the operation ends in a conflict and no write is asked for.
pub proof fn law_conflict_writes_nothing(cache: CacheView, remote_etag: Seq<char>)
    requires
        remote_etag != cache.etag,
    ensures
        fingerprint_judged(cache, Ok(remote_etag)) == StepView::Done(Err(CacheError::Conflict)),
{
}

} // verus!

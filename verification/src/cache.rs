//! The snapshot: all records as they were last loaded from the remote store,
//! the time of that load and the fingerprint the store gave with it. The
//! functions here change the snapshot in memory and judge what the store
//! answered; none of them reaches the store.

use vstd::prelude::*;
use crate::clock::current_timestamp;
use crate::process::{optional_texts, patched, views, Process, ProcessView};
use crate::process_map::{
    has_name, lookup, merged, names_distinct, position, to_map, ProcessMap,
};
use crate::query::{filter_processes, query_test, ProcessQueryParams};

verus! {

/// How many seconds a snapshot is served before the store is asked whether it
/// has changed.
pub const MAX_AGE_SECONDS: u64 = 60;

/// Why an operation on the cache failed.
#[derive(Debug, Clone, Copy, PartialEq, Eq, Structural)]
pub enum CacheError {
    /// No record of that name, or no remote object.
    NotFound,
    /// A record of that name is already there.
    AlreadyExists,
    /// A partial update that names no field to update.
    InvalidRequest,
    /// The remote object changed since the snapshot was loaded.
    Conflict,
    /// The remote store could not be reached.
    RemoteUnavailable,
    /// The remote object could not be read as a list of records.
    Malformed,
}

/// Why a call to the remote store failed.
#[derive(Debug, Clone, Copy, PartialEq, Eq, Structural)]
pub enum StoreError {
    /// The store has no such object.
    Missing,
    /// The store could not be reached, or refused the call.
    Unavailable,
    /// The object is there but is not a list of records.
    Malformed,
}

/// The cache's word for a failure of the store.
pub open spec fn surfaced(error: StoreError) -> CacheError {
    match error {
        StoreError::Missing => CacheError::NotFound,
        StoreError::Unavailable => CacheError::RemoteUnavailable,
        StoreError::Malformed => CacheError::Malformed,
    }
}

impl CacheError {
    /// The cache's word for a failure of the store.
    pub fn from_store(error: StoreError) -> (cache_error: CacheError)
        ensures
            cache_error == surfaced(error),
    {
        match error {
            StoreError::Missing => CacheError::NotFound,
            StoreError::Unavailable => CacheError::RemoteUnavailable,
            StoreError::Malformed => CacheError::Malformed,
        }
    }
}

/// The snapshot.
#[derive(Debug)]
pub struct MyCache {
    /// Every record known, by name.
    pub all_processes: ProcessMap,
    /// When the records were last loaded, in seconds since the epoch.
    pub cache_time: u64,
    /// The fingerprint the store gave for what the snapshot believes is stored.
    pub etag: String,
}

/// A snapshot as plain mathematical values.
pub struct CacheView {
    pub records: Seq<ProcessView>,
    pub cache_time: u64,
    pub etag: Seq<char>,
}

impl View for MyCache {
    type V = CacheView;

    open spec fn view(&self) -> CacheView {
        CacheView { records: self.all_processes@, cache_time: self.cache_time, etag: self.etag@ }
    }
}

/// What an optional record holds.
pub open spec fn optional_view(process: Option<Process>) -> Option<ProcessView> {
    match process {
        Some(p) => Some(p@),
        None => None,
    }
}

/// What the store answered to a fingerprint lookup or to a write.
pub open spec fn fingerprint_view(reply: Result<String, StoreError>) -> Result<
    Seq<char>,
    StoreError,
> {
    match reply {
        Ok(etag) => Ok(etag@),
        Err(error) => Err(error),
    }
}

/// What the store answered to a load: the records and their fingerprint.
pub open spec fn loaded_view(reply: Result<(Vec<Process>, String), StoreError>) -> Result<
    (Seq<ProcessView>, Seq<char>),
    StoreError,
> {
    match reply {
        Ok((processes, etag)) => Ok((views(processes@), etag@)),
        Err(error) => Err(error),
    }
}

/// A snapshot loaded at `cache_time` is stale at `now` when more than the
/// maximum age lies between the two. A clock that went backwards makes
/// nothing stale.
pub open spec fn stale(cache_time: u64, now: u64) -> bool {
    now - cache_time > MAX_AGE_SECONDS
}

/// The store's answer to a fingerprint lookup shows a change, or shows
/// nothing: a failed lookup counts as a change.
pub open spec fn changed(etag: Seq<char>, remote: Result<Seq<char>, StoreError>) -> bool {
    match remote {
        Ok(found) => found != etag,
        Err(_) => true,
    }
}

/// The snapshot after a load: replaced as a whole when the load succeeded,
/// untouched when it failed.
pub open spec fn refreshed(
    cache: CacheView,
    loaded: Result<(Seq<ProcessView>, Seq<char>), StoreError>,
    now: u64,
) -> CacheView {
    match loaded {
        Ok((records, etag)) => CacheView { records: merged(records), cache_time: now, etag },
        Err(_) => cache,
    }
}

/// The records after a new one is added, or why it cannot be.
pub open spec fn after_add(records: Seq<ProcessView>, record: ProcessView) -> Result<
    Seq<ProcessView>,
    CacheError,
> {
    if has_name(records, record.name) {
        Err(CacheError::AlreadyExists)
    } else {
        Ok(records.push(record))
    }
}

/// The records after one is replaced as a whole, or why it cannot be.
pub open spec fn after_modify(records: Seq<ProcessView>, record: ProcessView) -> Result<
    Seq<ProcessView>,
    CacheError,
> {
    match position(records, record.name) {
        Some(i) => Ok(records.update(i, record)),
        None => Err(CacheError::NotFound),
    }
}

/// The records after one is deleted, or why it cannot be.
pub open spec fn after_delete(records: Seq<ProcessView>, name: Seq<char>) -> Result<
    Seq<ProcessView>,
    CacheError,
> {
    match position(records, name) {
        Some(i) => Ok(records.remove(i)),
        None => Err(CacheError::NotFound),
    }
}

/// A partial update names at least one field.
pub open spec fn names_a_field(run: Option<bool>, tags: Option<Seq<Seq<char>>>) -> bool {
    run.is_some() || tags.is_some()
}

/// The records after one is partially updated, or why it cannot be.
pub open spec fn after_patch(
    records: Seq<ProcessView>,
    name: Seq<char>,
    run: Option<bool>,
    tags: Option<Seq<Seq<char>>>,
    effective: Seq<char>,
) -> Result<Seq<ProcessView>, CacheError> {
    if !names_a_field(run, tags) {
        Err(CacheError::InvalidRequest)
    } else {
        match position(records, name) {
            Some(i) => Ok(records.update(i, patched(records[i], run, tags, effective))),
            None => Err(CacheError::NotFound),
        }
    }
}

/// The snapshot with other records and everything else as it was.
pub open spec fn with_records(cache: CacheView, records: Seq<ProcessView>) -> CacheView {
    CacheView { records, cache_time: cache.cache_time, etag: cache.etag }
}

/// What a change in memory leaves behind: the new records and success, or
/// the snapshot as it was and the reason.
pub open spec fn settled(
    before: CacheView,
    change: Result<Seq<ProcessView>, CacheError>,
    after: CacheView,
    outcome: Result<(), CacheError>,
) -> bool {
    match change {
        Ok(records) => outcome == Ok::<(), CacheError>(()) && after == with_records(before, records),
        Err(error) => outcome == Err::<(), CacheError>(error) && after == before,
    }
}

/// What is to be written after the store answered the fingerprint lookup
/// that precedes every write: the records, if the store still holds what the
/// snapshot was loaded from.
pub open spec fn write_plan(cache: CacheView, remote: Result<Seq<char>, StoreError>) -> Result<
    Seq<ProcessView>,
    CacheError,
> {
    match remote {
        Ok(found) => if found == cache.etag {
            Ok(cache.records)
        } else {
            Err(CacheError::Conflict)
        },
        Err(error) => Err(surfaced(error)),
    }
}

impl MyCache {
    /// A snapshot of the records that were loaded at `cache_time` with the
    /// fingerprint `etag`.
    pub fn new(processes: Vec<Process>, cache_time: u64, etag: String) -> (cache: MyCache)
        ensures
            cache@ == (CacheView { records: merged(views(processes@)), cache_time, etag: etag@ }),
            names_distinct(cache@.records),
    {
        MyCache { all_processes: to_map(processes), cache_time, etag }
    }

    /// The first snapshot, from what the first load gave. Without a load
    /// there is no snapshot: the failure is handed on in the cache's words.
    pub fn load(loaded: Result<(Vec<Process>, String), StoreError>, now: u64) -> (cache: Result<
        MyCache,
        CacheError,
    >)
        ensures
            match loaded_view(loaded) {
                Ok((records, etag)) => cache matches Ok(built) && built@ == (CacheView {
                    records: merged(records),
                    cache_time: now,
                    etag,
                }),
                Err(error) => cache matches Err(reason) && reason == surfaced(error),
            },
    {
        match loaded {
            Ok((processes, etag)) => Ok(MyCache::new(processes, now, etag)),
            Err(error) => Err(CacheError::from_store(error)),
        }
    }

    /// A copy of the record of that name.
    pub fn get_process(&self, process_name: &str) -> (found: Option<Process>)
        ensures
            optional_view(found) == lookup(self@.records, process_name@),
    {
        self.all_processes.get(process_name)
    }

    /// Copies of the records that pass every test of the query, in the
    /// snapshot's order.
    pub fn filter_processes(&self, query: &ProcessQueryParams) -> (kept: Vec<Process>)
        ensures
            views(kept@) == self@.records.filter(query_test(query@)),
    {
        filter_processes(self.all_processes.to_list(), query)
    }

    /// Whether the snapshot is older than the maximum age.
    pub fn is_stale(&self, now: u64) -> (yes: bool)
        ensures
            yes == stale(self.cache_time, now),
    {
        now > self.cache_time && now - self.cache_time > MAX_AGE_SECONDS
    }

    /// Whether the store's answer to a fingerprint lookup differs from the
    /// snapshot's fingerprint. A failed lookup counts as a difference.
    pub fn fingerprint_changed(&self, remote: &Result<String, StoreError>) -> (yes: bool)
        ensures
            yes == changed(self@.etag, fingerprint_view(*remote)),
    {
        match remote {
            Ok(found) => !(*found == self.etag),
            Err(_) => true,
        }
    }

    /// Whether the snapshot is to be loaded again: it is stale, and the
    /// store's answer to a fingerprint lookup shows a change or shows nothing.
    /// The answer is looked at only for a stale snapshot.
    pub fn should_refresh_cache(&self, now: u64, remote: &Result<String, StoreError>) -> (yes: bool)
        ensures
            yes == (stale(self@.cache_time, now) && changed(self@.etag, fingerprint_view(*remote))),
    {
        self.is_stale(now) && self.fingerprint_changed(remote)
    }

    /// Takes in what a load from the store gave: on success the snapshot is
    /// replaced as a whole, on failure it stays as it is.
    pub fn refresh_cache(&mut self, loaded: Result<(Vec<Process>, String), StoreError>, now: u64)
        ensures
            final(self)@ == refreshed(old(self)@, loaded_view(loaded), now),
            names_distinct(final(self)@.records),
    {
        match loaded {
            Ok((processes, etag)) => {
                self.all_processes = to_map(processes);
                self.cache_time = now;
                self.etag = etag;
            },
            Err(_) => {
                proof {
                    use_type_invariant(&self.all_processes);
                }
            },
        }
    }

    /// Adds a record whose name is not yet there.
    pub fn add_process(&mut self, process: Process) -> (outcome: Result<(), CacheError>)
        ensures
            settled(old(self)@, after_add(old(self)@.records, process@), final(self)@, outcome),
            names_distinct(final(self)@.records),
    {
        proof {
            use_type_invariant(&self.all_processes);
        }
        if self.all_processes.contains(process.name.as_str()) {
            Err(CacheError::AlreadyExists)
        } else {
            self.all_processes.insert(process);
            Ok(())
        }
    }

    /// Replaces the record of that name as a whole.
    pub fn modify_process(&mut self, process: Process) -> (outcome: Result<(), CacheError>)
        ensures
            settled(old(self)@, after_modify(old(self)@.records, process@), final(self)@, outcome),
            names_distinct(final(self)@.records),
    {
        proof {
            use_type_invariant(&self.all_processes);
        }
        if self.all_processes.contains(process.name.as_str()) {
            self.all_processes.insert(process);
            Ok(())
        } else {
            Err(CacheError::NotFound)
        }
    }

    /// Deletes the record of that name.
    pub fn delete_process(&mut self, process_name: &str) -> (outcome: Result<(), CacheError>)
        ensures
            settled(old(self)@, after_delete(old(self)@.records, process_name@), final(self)@, outcome),
            names_distinct(final(self)@.records),
    {
        match self.all_processes.remove(process_name) {
            Some(_) => Ok(()),
            None => Err(CacheError::NotFound),
        }
    }

    /// Updates the supplied fields of the record of that name and gives it
    /// the stamp. At least one field has to be supplied.
    pub fn update_process_partial_at(
        &mut self,
        process_name: &str,
        run: Option<bool>,
        tags: Option<Vec<String>>,
        effective: String,
    ) -> (outcome: Result<(), CacheError>)
        ensures
            settled(
                old(self)@,
                after_patch(
                    old(self)@.records,
                    process_name@,
                    run,
                    optional_texts(tags),
                    effective@,
                ),
                final(self)@,
                outcome,
            ),
            names_distinct(final(self)@.records),
    {
        proof {
            use_type_invariant(&self.all_processes);
        }
        if run.is_none() && tags.is_none() {
            Err(CacheError::InvalidRequest)
        } else if self.all_processes.patch(process_name, run, tags, effective) {
            Ok(())
        } else {
            Err(CacheError::NotFound)
        }
    }

    /// Updates the supplied fields of the record of that name and stamps it
    /// with the current local time. At least one field has to be supplied.
    pub fn update_process_partial(
        &mut self,
        process_name: &str,
        run: Option<bool>,
        tags: Option<Vec<String>>,
    ) -> (outcome: Result<(), CacheError>)
        ensures
            exists|effective: Seq<char>|
                settled(
                    old(self)@,
                    after_patch(
                        old(self)@.records,
                        process_name@,
                        run,
                        optional_texts(tags),
                        effective,
                    ),
                    final(self)@,
                    outcome,
                ),
            names_distinct(final(self)@.records),
    {
        let effective = current_timestamp();
        self.update_process_partial_at(process_name, run, tags, effective)
    }

    /// Judges the store's answer to the fingerprint lookup that precedes a
    /// write. The records are handed out for writing only if the store still
    /// holds what the snapshot was loaded from.
    pub fn check_fingerprint(&self, remote: &Result<String, StoreError>) -> (plan: Result<
        Vec<Process>,
        CacheError,
    >)
        ensures
            match write_plan(self@, fingerprint_view(*remote)) {
                Ok(records) => plan matches Ok(list) && views(list@) == records,
                Err(error) => plan matches Err(reason) && reason == error,
            },
    {
        match remote {
            Ok(found) => {
                if *found == self.etag {
                    Ok(self.all_processes.to_list())
                } else {
                    Err(CacheError::Conflict)
                }
            },
            Err(error) => Err(CacheError::from_store(*error)),
        }
    }

    /// Takes in what a write to the store gave: on success the snapshot's
    /// fingerprint becomes the one of what was written; on failure the
    /// snapshot stays as it is, changes in memory included.
    pub fn write_cache(&mut self, written: Result<String, StoreError>) -> (outcome: Result<
        (),
        CacheError,
    >)
        ensures
            match fingerprint_view(written) {
                Ok(etag) => outcome == Ok::<(), CacheError>(()) && final(self)@ == (CacheView {
                    records: old(self)@.records,
                    cache_time: old(self)@.cache_time,
                    etag,
                }),
                Err(error) => outcome == Err::<(), CacheError>(surfaced(error)) && final(self)@
                    == old(self)@,
            },
    {
        match written {
            Ok(etag) => {
                self.etag = etag;
                Ok(())
            },
            Err(error) => Err(CacheError::from_store(error)),
        }
    }
}

} // verus!

//! The operations of the cache as steps. Each operation that needs the remote
//! store is a short conversation with it: the cache says which call is to be
//! made next, the caller makes it and hands the answer back, until the cache
//! says that the operation is done. The cache decides everything; the caller
//! only carries the calls out.
//!
//! A write never goes out before the store has been asked for its
//! fingerprint once more. If somebody else has written since the snapshot was
//! loaded, the operation ends in a conflict and nothing is written; what was
//! changed in memory stays changed, and the caller has to begin again.

use vstd::prelude::*;
use crate::cache::{
    after_add, after_delete, after_modify, after_patch, changed, fingerprint_view, loaded_view,
    names_a_field, refreshed, stale, surfaced, with_records, write_plan, CacheError, CacheView,
    MyCache, StoreError,
};
use crate::clock::{current_timestamp, get_current_time};
use crate::process::{optional_texts, views, Process, ProcessView};

verus! {

/// What a caller asks of the cache.
#[derive(Debug, PartialEq, Eq)]
pub enum Request {
    /// Load the snapshot again: in any case if `force` is set, otherwise only
    /// if it is stale and the store shows a change.
    Refresh { force: bool },
    /// Add a record under a name that is not yet there.
    Add { process: Process },
    /// Replace the record of that name as a whole.
    Modify { process: Process },
    /// Delete the record of that name.
    Delete { name: String },
    /// Update the supplied fields of the record of that name.
    Patch { name: String, run: Option<bool>, tags: Option<Vec<String>> },
}

/// A request as plain mathematical values.
pub enum RequestView {
    Refresh { force: bool },
    Add { record: ProcessView },
    Modify { record: ProcessView },
    Delete { name: Seq<char> },
    Patch { name: Seq<char>, run: Option<bool>, tags: Option<Seq<Seq<char>>> },
}

impl View for Request {
    type V = RequestView;

    open spec fn view(&self) -> RequestView {
        match *self {
            Request::Refresh { force } => RequestView::Refresh { force },
            Request::Add { process } => RequestView::Add { record: process@ },
            Request::Modify { process } => RequestView::Modify { record: process@ },
            Request::Delete { name } => RequestView::Delete { name: name@ },
            Request::Patch { name, run, tags } => RequestView::Patch {
                name: name@,
                run,
                tags: optional_texts(tags),
            },
        }
    }
}

/// What is to happen next in an operation.
#[derive(Debug, PartialEq, Eq)]
pub enum Step {
    /// Ask the store for its fingerprint and hand the answer to
    /// `on_freshness`: it decides whether a refresh loads.
    CheckFreshness,
    /// Load the remote object and hand the answer, with the request, to
    /// `on_loaded`.
    Load(Request),
    /// Ask the store for its fingerprint and hand the answer to
    /// `on_fingerprint`: it decides whether the write may go out.
    CheckFingerprint,
    /// Write these records to the store and hand the answer to `on_written`.
    Write(Vec<Process>),
    /// The operation is over, with this outcome.
    Done(Result<(), CacheError>),
}

/// A step as plain mathematical values.
pub enum StepView {
    CheckFreshness,
    Load(RequestView),
    CheckFingerprint,
    Write(Seq<ProcessView>),
    Done(Result<(), CacheError>),
}

impl View for Step {
    type V = StepView;

    open spec fn view(&self) -> StepView {
        match *self {
            Step::CheckFreshness => StepView::CheckFreshness,
            Step::Load(request) => StepView::Load(request@),
            Step::CheckFingerprint => StepView::CheckFingerprint,
            Step::Write(processes) => StepView::Write(views(processes@)),
            Step::Done(outcome) => StepView::Done(outcome),
        }
    }
}

/// Where a change in memory leads: to the fingerprint lookup that precedes
/// the write if it was made, to the end of the operation if it was refused.
pub open spec fn followed(cache: CacheView, change: Result<Seq<ProcessView>, CacheError>) -> (
    CacheView,
    StepView,
) {
    match change {
        Ok(records) => (with_records(cache, records), StepView::CheckFingerprint),
        Err(error) => (cache, StepView::Done(Err(error))),
    }
}

/// The snapshot and the first step of an operation begun at `now`.
///
/// Adding, deleting and updating in part load the snapshot anew before they
/// touch it. Replacing a record as a whole does not: it works on the snapshot
/// as it is. A partial update that names no field ends at once.
pub open spec fn begun(cache: CacheView, request: RequestView, now: u64) -> (CacheView, StepView) {
    match request {
        RequestView::Refresh { force } => if force {
            (cache, StepView::Load(request))
        } else if stale(cache.cache_time, now) {
            (cache, StepView::CheckFreshness)
        } else {
            (cache, StepView::Done(Ok(())))
        },
        RequestView::Add { record } => (cache, StepView::Load(request)),
        RequestView::Modify { record } => followed(cache, after_modify(cache.records, record)),
        RequestView::Delete { name } => (cache, StepView::Load(request)),
        RequestView::Patch { name, run, tags } => if names_a_field(run, tags) {
            (cache, StepView::Load(request))
        } else {
            (cache, StepView::Done(Err(CacheError::InvalidRequest)))
        },
    }
}

/// The step after the store answered the fingerprint lookup of a refresh
/// that was not forced.
pub open spec fn freshness_judged(cache: CacheView, remote: Result<Seq<char>, StoreError>) -> StepView {
    if changed(cache.etag, remote) {
        StepView::Load(RequestView::Refresh { force: true })
    } else {
        StepView::Done(Ok(()))
    }
}

/// The name of the record that a request is about; a refresh is about none.
pub open spec fn subject(request: RequestView) -> Option<Seq<char>> {
    match request {
        RequestView::Refresh { force } => None,
        RequestView::Add { record } => Some(record.name),
        RequestView::Modify { record } => Some(record.name),
        RequestView::Delete { name } => Some(name),
        RequestView::Patch { name, run, tags } => Some(name),
    }
}

/// The records after the change that a request asks for, or why the change
/// cannot be made. A refresh asks for none. A partial update is stamped with
/// `stamp`.
pub open spec fn change_of(records: Seq<ProcessView>, request: RequestView, stamp: Seq<char>) -> Result<
    Seq<ProcessView>,
    CacheError,
> {
    match request {
        RequestView::Refresh { force } => Ok(records),
        RequestView::Add { record } => after_add(records, record),
        RequestView::Modify { record } => after_modify(records, record),
        RequestView::Delete { name } => after_delete(records, name),
        RequestView::Patch { name, run, tags } => after_patch(records, name, run, tags, stamp),
    }
}

/// The snapshot and the step after the store answered a load at `now`: the
/// load is taken in, and then the request's change is made on what the
/// snapshot holds after it. A load that failed keeps the operation going on
/// the old snapshot. A refresh is over with the load, however it went.
pub open spec fn loaded_step(
    cache: CacheView,
    request: RequestView,
    loaded: Result<(Seq<ProcessView>, Seq<char>), StoreError>,
    now: u64,
    stamp: Seq<char>,
) -> (CacheView, StepView) {
    let fresh = refreshed(cache, loaded, now);
    if request is Refresh {
        (fresh, StepView::Done(Ok(())))
    } else {
        followed(fresh, change_of(fresh.records, request, stamp))
    }
}

/// The step after the store answered the fingerprint lookup that precedes a
/// write.
pub open spec fn fingerprint_judged(cache: CacheView, remote: Result<Seq<char>, StoreError>) -> StepView {
    match write_plan(cache, remote) {
        Ok(records) => StepView::Write(records),
        Err(error) => StepView::Done(Err(error)),
    }
}

/// The snapshot and the outcome after the store answered a write.
pub open spec fn written_step(cache: CacheView, written: Result<Seq<char>, StoreError>) -> (
    CacheView,
    StepView,
) {
    match written {
        Ok(etag) => (
            CacheView { records: cache.records, cache_time: cache.cache_time, etag },
            StepView::Done(Ok(())),
        ),
        Err(error) => (cache, StepView::Done(Err(surfaced(error)))),
    }
}

/// The step that follows a change in memory.
fn follow(outcome: Result<(), CacheError>) -> (step: Step)
    ensures
        step@ == match outcome {
            Ok(_) => StepView::CheckFingerprint,
            Err(error) => StepView::Done(Err(error)),
        },
{
    match outcome {
        Ok(_) => Step::CheckFingerprint,
        Err(error) => Step::Done(Err(error)),
    }
}

impl MyCache {
    /// Begins an operation at the time `now` and says what is to happen first.
    pub fn begin_at(&mut self, request: Request, now: u64) -> (step: Step)
        ensures
            (final(self)@, step@) == begun(old(self)@, request@, now),
    {
        match request {
            Request::Refresh { force } => {
                if force {
                    Step::Load(Request::Refresh { force })
                } else if self.is_stale(now) {
                    Step::CheckFreshness
                } else {
                    Step::Done(Ok(()))
                }
            },
            Request::Add { process } => Step::Load(Request::Add { process }),
            Request::Modify { process } => follow(self.modify_process(process)),
            Request::Delete { name } => Step::Load(Request::Delete { name }),
            Request::Patch { name, run, tags } => {
                if run.is_some() || tags.is_some() {
                    Step::Load(Request::Patch { name, run, tags })
                } else {
                    Step::Done(Err(CacheError::InvalidRequest))
                }
            },
        }
    }

    /// Begins an operation now and says what is to happen first.
    pub fn begin(&mut self, request: Request) -> (step: Step)
        ensures
            exists|now: u64| (final(self)@, step@) == begun(old(self)@, request@, now),
    {
        let now = get_current_time();
        self.begin_at(request, now)
    }

    /// Goes on after the fingerprint lookup of a refresh that was not forced:
    /// the snapshot is loaded again if the store shows a change, or shows
    /// nothing.
    pub fn on_freshness(&self, remote: &Result<String, StoreError>) -> (step: Step)
        ensures
            step@ == freshness_judged(self@, fingerprint_view(*remote)),
    {
        if self.fingerprint_changed(remote) {
            Step::Load(Request::Refresh { force: true })
        } else {
            Step::Done(Ok(()))
        }
    }

    /// Goes on after a load that was answered at the time `now`: takes the
    /// load in and makes the request's change, stamping a partial update with
    /// `stamp`.
    pub fn on_loaded_at(
        &mut self,
        request: Request,
        loaded: Result<(Vec<Process>, String), StoreError>,
        now: u64,
        stamp: String,
    ) -> (step: Step)
        ensures
            (final(self)@, step@) == loaded_step(
                old(self)@,
                request@,
                loaded_view(loaded),
                now,
                stamp@,
            ),
    {
        self.refresh_cache(loaded, now);
        match request {
            Request::Refresh { force } => Step::Done(Ok(())),
            Request::Add { process } => follow(self.add_process(process)),
            Request::Modify { process } => follow(self.modify_process(process)),
            Request::Delete { name } => follow(self.delete_process(name.as_str())),
            Request::Patch { name, run, tags } => follow(
                self.update_process_partial_at(name.as_str(), run, tags, stamp),
            ),
        }
    }

    /// Goes on after a load that has just been answered.
    pub fn on_loaded(
        &mut self,
        request: Request,
        loaded: Result<(Vec<Process>, String), StoreError>,
    ) -> (step: Step)
        ensures
            exists|now: u64, stamp: Seq<char>|
                (final(self)@, step@) == loaded_step(
                    old(self)@,
                    request@,
                    loaded_view(loaded),
                    now,
                    stamp,
                ),
    {
        let now = get_current_time();
        let stamp = current_timestamp();
        self.on_loaded_at(request, loaded, now, stamp)
    }

    /// Goes on after the fingerprint lookup that precedes a write: the
    /// records go out only if the store still holds what the snapshot was
    /// loaded from.
    pub fn on_fingerprint(&self, remote: &Result<String, StoreError>) -> (step: Step)
        ensures
            step@ == fingerprint_judged(self@, fingerprint_view(*remote)),
    {
        match self.check_fingerprint(remote) {
            Ok(processes) => Step::Write(processes),
            Err(error) => Step::Done(Err(error)),
        }
    }

    /// Ends the operation after a write.
    pub fn on_written(&mut self, written: Result<String, StoreError>) -> (step: Step)
        ensures
            (final(self)@, step@) == written_step(old(self)@, fingerprint_view(written)),
    {
        Step::Done(self.write_cache(written))
    }
}

} // verus!

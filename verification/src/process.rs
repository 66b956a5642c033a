//! The record: a named control entry with a run flag, optional tags and the
//! time of its last change.

use vstd::prelude::*;
use crate::clock::current_timestamp;

verus! {

/// The text of each string of a sequence, in order.
pub open spec fn texts(strings: Seq<String>) -> Seq<Seq<char>> {
    Seq::new(strings.len(), |i: int| strings[i]@)
}

/// The texts of an optional list of strings.
pub open spec fn optional_texts(strings: Option<Vec<String>>) -> Option<Seq<Seq<char>>> {
    match strings {
        Some(list) => Some(texts(list@)),
        None => None,
    }
}

/// A copy of a list of strings.
pub fn clone_strings(strings: &Vec<String>) -> (copy: Vec<String>)
    ensures
        texts(copy@) == texts(strings@),
{
    let mut copy: Vec<String> = Vec::new();
    let mut i: usize = 0;
    while i < strings.len()
        invariant
            i <= strings.len(),
            copy.len() == i,
            forall|j: int| 0 <= j < i ==> copy[j]@ == strings[j]@,
        decreases strings.len() - i,
    {
        copy.push(strings[i].clone());
        i += 1;
    }
    copy
}

/// A copy of an optional list of strings.
pub fn clone_optional_strings(strings: &Option<Vec<String>>) -> (copy: Option<Vec<String>>)
    ensures
        optional_texts(copy) == optional_texts(*strings),
{
    match strings {
        Some(list) => Some(clone_strings(list)),
        None => None,
    }
}

/// A process-control record.
#[derive(Debug, PartialEq, Eq)]
pub struct Process {
    /// Identifies the record; never changes once the record exists.
    pub name: String,
    /// Whether the process may run.
    pub run: bool,
    /// Free-form labels; `None` is different from an empty list.
    pub tags: Option<Vec<String>>,
    /// When the record was last changed, as local time text.
    pub effective: String,
}

/// What a record holds, as plain mathematical values.
pub struct ProcessView {
    pub name: Seq<char>,
    pub run: bool,
    pub tags: Option<Seq<Seq<char>>>,
    pub effective: Seq<char>,
}

impl View for Process {
    type V = ProcessView;

    open spec fn view(&self) -> ProcessView {
        ProcessView {
            name: self.name@,
            run: self.run,
            tags: optional_texts(self.tags),
            effective: self.effective@,
        }
    }
}

impl Clone for Process {
    fn clone(&self) -> (copy: Self)
        ensures
            copy@ == self@,
    {
        Process {
            name: self.name.clone(),
            run: self.run,
            tags: clone_optional_strings(&self.tags),
            effective: self.effective.clone(),
        }
    }
}

/// The views of a sequence of records, in order.
pub open spec fn views(records: Seq<Process>) -> Seq<ProcessView> {
    Seq::new(records.len(), |i: int| records[i]@)
}

/// A record after a partial update: a supplied field replaces the old one, an
/// absent one leaves it, and the stamp is always renewed.
pub open spec fn patched(
    before: ProcessView,
    run: Option<bool>,
    tags: Option<Seq<Seq<char>>>,
    effective: Seq<char>,
) -> ProcessView {
    ProcessView {
        name: before.name,
        run: match run {
            Some(flag) => flag,
            None => before.run,
        },
        tags: match tags {
            Some(list) => Some(list),
            None => before.tags,
        },
        effective,
    }
}

/// A new record with the given stamp.
pub fn create_process_at(
    name: &str,
    run: bool,
    tags: Option<Vec<String>>,
    effective: String,
) -> (process: Process)
    ensures
        process@ == (ProcessView {
            name: name@,
            run,
            tags: optional_texts(tags),
            effective: effective@,
        }),
{
    Process { name: name.to_owned(), run, tags, effective }
}

/// A new record stamped with the current local time.
pub fn create_process(name: &str, run: bool, tags: Option<Vec<String>>) -> (process: Process)
    ensures
        process@.name == name@,
        process@.run == run,
        process@.tags == optional_texts(tags),
{
    create_process_at(name, run, tags, current_timestamp())
}

/// Updates the supplied fields of a record and gives it the stamp.
pub fn update_process_partial_at(
    process: &mut Process,
    run: Option<bool>,
    tags: Option<Vec<String>>,
    effective: String,
)
    ensures
        final(process)@ == patched(old(process)@, run, optional_texts(tags), effective@),
{
    if let Some(list) = tags {
        process.tags = Some(list);
    }
    if let Some(flag) = run {
        process.run = flag;
    }
    process.effective = effective;
}

/// Updates the supplied fields of a record and stamps it with the current
/// local time.
pub fn update_process_partial(process: &mut Process, run: Option<bool>, tags: Option<Vec<String>>)
    ensures
        exists|effective: Seq<char>|
            final(process)@ == patched(old(process)@, run, optional_texts(tags), effective),
{
    let effective = current_timestamp();
    update_process_partial_at(process, run, tags, effective);
}

/// Sets the run flag, replaces the tags if any are given, and stamps the
/// record with the current local time.
pub fn update_process(process: &mut Process, run: bool, tags: Option<Vec<String>>)
    ensures
        exists|effective: Seq<char>|
            final(process)@ == patched(old(process)@, Some(run), optional_texts(tags), effective),
{
    let effective = current_timestamp();
    update_process_partial_at(process, Some(run), tags, effective);
}

} // verus!

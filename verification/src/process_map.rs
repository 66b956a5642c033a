//! The mapping from names to records. It keeps its records in the order in
//! which their names first appeared, and never holds two records of one name.
//!
//! The records stand in a list that is searched by name. Of a hash map keyed
//! by strings Verus can prove nothing, not even that a key just inserted is
//! there: the specifications of std's map hold only for key types whose
//! hashing is known to be sound, and `String` is not among them. What the
//! list stands for as a map is `as_map`; `lemma_upsert_is_insert` and
//! `lemma_without_is_remove` show that storing and taking out are the map's
//! insertion and removal.

use vstd::prelude::*;
use crate::process::{
    optional_texts, patched, update_process_partial_at, views, Process, ProcessView,
};

verus! {

/// No two records of the sequence share a name.
pub open spec fn names_distinct(records: Seq<ProcessView>) -> bool {
    forall|i: int, j: int|
        0 <= i < j < records.len() ==> (#[trigger] records[i]).name != (#[trigger] records[j]).name
}

/// Some record of the sequence has the name.
pub open spec fn has_name(records: Seq<ProcessView>, name: Seq<char>) -> bool {
    exists|i: int| 0 <= i < records.len() && (#[trigger] records[i]).name == name
}

/// Where the record of that name stands, if there is one.
pub open spec fn position(records: Seq<ProcessView>, name: Seq<char>) -> Option<int> {
    if has_name(records, name) {
        Some(choose|i: int| 0 <= i < records.len() && (#[trigger] records[i]).name == name)
    } else {
        None
    }
}

/// The record of that name, if there is one.
pub open spec fn lookup(records: Seq<ProcessView>, name: Seq<char>) -> Option<ProcessView> {
    match position(records, name) {
        Some(i) => Some(records[i]),
        None => None,
    }
}

/// The sequence after a record is stored under its name: it takes the place
/// of the record that had the name, or goes to the end.
pub open spec fn upsert(records: Seq<ProcessView>, record: ProcessView) -> Seq<ProcessView> {
    match position(records, record.name) {
        Some(i) => records.update(i, record),
        None => records.push(record),
    }
}

/// The sequence without the record of that name.
pub open spec fn without(records: Seq<ProcessView>, name: Seq<char>) -> Seq<ProcessView> {
    match position(records, name) {
        Some(i) => records.remove(i),
        None => records,
    }
}

/// The sequence after the record of that name is partially updated; without
/// such a record, the sequence as it was.
pub open spec fn patched_in(
    records: Seq<ProcessView>,
    name: Seq<char>,
    run: Option<bool>,
    tags: Option<Seq<Seq<char>>>,
    effective: Seq<char>,
) -> Seq<ProcessView> {
    match position(records, name) {
        Some(i) => records.update(i, patched(records[i], run, tags, effective)),
        None => records,
    }
}

/// The mapping that storing the records one after another builds up: each
/// name once, at the place of its first record, with its last record.
pub open spec fn merged(records: Seq<ProcessView>) -> Seq<ProcessView>
    decreases records.len(),
{
    if records.len() == 0 {
        Seq::empty()
    } else {
        upsert(merged(records.drop_last()), records.last())
    }
}

/// Among distinct names, a record found under a name is the one `position`
/// gives.
pub proof fn lemma_position_found(records: Seq<ProcessView>, name: Seq<char>, i: int)
    requires
        names_distinct(records),
        0 <= i < records.len(),
        records[i].name == name,
    ensures
        position(records, name) == Some(i),
        lookup(records, name) == Some(records[i]),
{
}

/// After a record is stored, it is the one found under its name, and every
/// other name finds what it found before.
pub proof fn lemma_upsert_lookup(records: Seq<ProcessView>, record: ProcessView, name: Seq<char>)
    requires
        names_distinct(records),
    ensures
        lookup(upsert(records, record), name) == if name == record.name {
            Some(record)
        } else {
            lookup(records, name)
        },
{
    let after = upsert(records, record);
    let at = match position(records, record.name) {
        Some(i) => i,
        None => records.len() as int,
    };
    if name == record.name {
        lemma_position_found(after, name, at);
    } else if has_name(records, name) {
        let k = choose|k: int| 0 <= k < records.len() && (#[trigger] records[k]).name == name;
        lemma_position_found(after, name, k);
    }
}

/// After a record is taken out, nothing is found under its name, and every
/// other name finds what it found before.
pub proof fn lemma_without_lookup(records: Seq<ProcessView>, gone: Seq<char>, name: Seq<char>)
    requires
        names_distinct(records),
    ensures
        lookup(without(records, gone), name) == if name == gone {
            None
        } else {
            lookup(records, name)
        },
{
    let after = without(records, gone);
    match position(records, gone) {
        Some(at) => {
            if name != gone && has_name(records, name) {
                let k = choose|k: int| 0 <= k < records.len() && (#[trigger] records[k]).name == name;
                let moved = if k < at { k } else { k - 1 };
                lemma_position_found(after, name, moved);
            }
        },
        None => {},
    }
}

/// After a partial update, the updated record is found under its name, and
/// every other name finds what it found before.
pub proof fn lemma_patched_lookup(
    records: Seq<ProcessView>,
    target: Seq<char>,
    run: Option<bool>,
    tags: Option<Seq<Seq<char>>>,
    effective: Seq<char>,
    name: Seq<char>,
)
    requires
        names_distinct(records),
    ensures
        names_distinct(patched_in(records, target, run, tags, effective)),
        lookup(patched_in(records, target, run, tags, effective), name) == if name == target {
            match lookup(records, target) {
                Some(before) => Some(patched(before, run, tags, effective)),
                None => None,
            }
        } else {
            lookup(records, name)
        },
{
    match position(records, target) {
        Some(at) => {
            let record = patched(records[at], run, tags, effective);
            lemma_upsert_lookup(records, record, name);
        },
        None => {},
    }
}

/// The mapping that a sequence of records with distinct names stands for.
pub open spec fn as_map(records: Seq<ProcessView>) -> Map<Seq<char>, ProcessView> {
    Map::new(
        |name: Seq<char>| has_name(records, name),
        |name: Seq<char>| lookup(records, name).unwrap(),
    )
}

/// Storing a record is an insertion into the mapping.
pub proof fn lemma_upsert_is_insert(records: Seq<ProcessView>, record: ProcessView)
    requires
        names_distinct(records),
    ensures
        as_map(upsert(records, record)) == as_map(records).insert(record.name, record),
{
    let after = as_map(upsert(records, record));
    let inserted = as_map(records).insert(record.name, record);
    assert forall|name: Seq<char>| #[trigger]
        after.dom().contains(name) == inserted.dom().contains(name) by {
        lemma_upsert_lookup(records, record, name);
    }
}

/// Taking a record out is a removal from the mapping.
pub proof fn lemma_without_is_remove(records: Seq<ProcessView>, name: Seq<char>)
    requires
        names_distinct(records),
    ensures
        as_map(without(records, name)) == as_map(records).remove(name),
{
    let after = as_map(without(records, name));
    let removed = as_map(records).remove(name);
    assert forall|other: Seq<char>| #[trigger]
        after.dom().contains(other) == removed.dom().contains(other) by {
        lemma_without_lookup(records, name, other);
    }
}

/// What `merged` builds has distinct names.
pub proof fn lemma_merged_distinct(records: Seq<ProcessView>)
    ensures
        names_distinct(merged(records)),
    decreases records.len(),
{
    if records.len() > 0 {
        lemma_merged_distinct(records.drop_last());
    }
}

/// The mapping from names to records.
#[derive(Debug)]
pub struct ProcessMap {
    entries: Vec<Process>,
}

impl View for ProcessMap {
    type V = Seq<ProcessView>;

    closed spec fn view(&self) -> Seq<ProcessView> {
        views(self.entries@)
    }
}

impl ProcessMap {
    /// Holds of every mapping: no two of its records share a name.
    #[verifier::type_invariant]
    pub open spec fn valid(self) -> bool {
        names_distinct(self@)
    }

    /// The empty mapping.
    pub fn new() -> (map: ProcessMap)
        ensures
            map@ == Seq::<ProcessView>::empty(),
    {
        ProcessMap { entries: Vec::new() }
    }

    /// How many records the mapping holds.
    pub fn len(&self) -> (count: usize)
        ensures
            count == self@.len(),
    {
        self.entries.len()
    }

    /// Moves the records out, leaving the mapping empty until they are put
    /// back.
    fn take_entries(&mut self) -> (entries: Vec<Process>)
        ensures
            entries == old(self).entries,
            final(self).entries@.len() == 0,
    {
        let mut entries: Vec<Process> = Vec::new();
        core::mem::swap(&mut self.entries, &mut entries);
        entries
    }

    /// Where the record of that name stands.
    fn find(&self, name: &str) -> (found: Option<usize>)
        ensures
            match found {
                Some(i) => position(self@, name@) == Some(i as int) && i < self.entries.len(),
                None => position(self@, name@).is_none(),
            },
    {
        proof {
            use_type_invariant(self);
        }
        let wanted = name.to_owned();
        let mut i: usize = 0;
        while i < self.entries.len()
            invariant
                i <= self.entries.len(),
                wanted@ == name@,
                names_distinct(self@),
                forall|j: int| 0 <= j < i ==> (#[trigger] self@[j]).name != name@,
            decreases self.entries.len() - i,
        {
            if self.entries[i].name == wanted {
                proof {
                    lemma_position_found(self@, name@, i as int);
                }
                return Some(i);
            }
            i += 1;
        }
        None
    }

    /// Whether a record of that name is held.
    pub fn contains(&self, name: &str) -> (held: bool)
        ensures
            held == has_name(self@, name@),
    {
        self.find(name).is_some()
    }

    /// A copy of the record of that name.
    pub fn get(&self, name: &str) -> (found: Option<Process>)
        ensures
            match found {
                Some(process) => lookup(self@, name@) == Some(process@),
                None => lookup(self@, name@).is_none(),
            },
    {
        match self.find(name) {
            Some(i) => Some(self.entries[i].clone()),
            None => None,
        }
    }

    /// Stores the record under its name, in place of the record that had the
    /// name if there was one. Says whether there was one.
    pub fn insert(&mut self, process: Process) -> (replaced: bool)
        ensures
            final(self)@ == upsert(old(self)@, process@),
            replaced == has_name(old(self)@, process@.name),
            names_distinct(final(self)@),
    {
        proof {
            use_type_invariant(&*self);
        }
        let found = self.find(process.name.as_str());
        let mut entries = self.take_entries();
        let replaced = match found {
            Some(i) => {
                entries.set(i, process);
                true
            },
            None => {
                entries.push(process);
                false
            },
        };
        assert(views(entries@) =~= upsert(old(self)@, process@));
        self.entries = entries;
        replaced
    }

    /// Takes the record of that name out and returns it.
    pub fn remove(&mut self, name: &str) -> (removed: Option<Process>)
        ensures
            final(self)@ == without(old(self)@, name@),
            names_distinct(final(self)@),
            match removed {
                Some(process) => lookup(old(self)@, name@) == Some(process@),
                None => lookup(old(self)@, name@).is_none(),
            },
    {
        proof {
            use_type_invariant(&*self);
        }
        match self.find(name) {
            Some(i) => {
                let mut entries = self.take_entries();
                let process = entries.remove(i);
                assert(views(entries@) =~= without(old(self)@, name@));
                self.entries = entries;
                Some(process)
            },
            None => None,
        }
    }

    /// Partially updates the record of that name, where it stands. Says
    /// whether there was one.
    pub fn patch(
        &mut self,
        name: &str,
        run: Option<bool>,
        tags: Option<Vec<String>>,
        effective: String,
    ) -> (found: bool)
        ensures
            found == has_name(old(self)@, name@),
            final(self)@ == patched_in(old(self)@, name@, run, optional_texts(tags), effective@),
            names_distinct(final(self)@),
    {
        let ghost after = patched_in(old(self)@, name@, run, optional_texts(tags), effective@);
        proof {
            use_type_invariant(&*self);
        }
        match self.find(name) {
            Some(i) => {
                let mut entries = self.take_entries();
                update_process_partial_at(&mut entries[i], run, tags, effective);
                assert(views(entries@) =~= after);
                self.entries = entries;
                true
            },
            None => false,
        }
    }

    /// Copies of all records, in the mapping's order.
    pub fn to_list(&self) -> (list: Vec<Process>)
        ensures
            views(list@) == self@,
    {
        let mut list: Vec<Process> = Vec::new();
        let mut i: usize = 0;
        while i < self.entries.len()
            invariant
                i <= self.entries.len(),
                list.len() == i,
                forall|j: int| 0 <= j < i ==> list[j]@ == self.entries[j]@,
            decreases self.entries.len() - i,
        {
            list.push(self.entries[i].clone());
            i += 1;
        }
        list
    }
}

/// The mapping that storing the records one after another builds up: where
/// two records share a name, the later one stays.
pub fn to_map(processes: Vec<Process>) -> (map: ProcessMap)
    ensures
        map@ == merged(views(processes@)),
        names_distinct(map@),
{
    let mut map = ProcessMap::new();
    let mut i: usize = 0;
    while i < processes.len()
        invariant
            i <= processes.len(),
            map@ == merged(views(processes@).take(i as int)),
        decreases processes.len() - i,
    {
        proof {
            let next = views(processes@).take(i as int + 1);
            assert(next.drop_last() =~= views(processes@).take(i as int));
        }
        map.insert(processes[i].clone());
        i += 1;
    }
    proof {
        assert(views(processes@).take(i as int) =~= views(processes@));
        lemma_merged_distinct(views(processes@));
    }
    map
}

/// Copies of all records of the mapping, in its order.
pub fn to_list(processes: &ProcessMap) -> (list: Vec<Process>)
    ensures
        views(list@) == processes@,
{
    processes.to_list()
}

} // verus!

//! The query filter: narrows a list of records by tags, by name prefixes and
//! by the run flag. A record is kept when it passes every test that the query
//! supplies; a test that is not supplied lets every record pass.

use vstd::prelude::*;
use crate::process::{optional_texts, texts, views, Process, ProcessView};
use crate::text::starts_with;

verus! {

/// What to keep: each field that is present is one test.
#[derive(Debug)]
pub struct ProcessQueryParams {
    /// Keep records that carry every one of these tags.
    pub tags: Option<Vec<String>>,
    /// Keep records whose name begins with any of these.
    pub name_prefixes: Option<Vec<String>>,
    /// Keep records whose run flag has this value.
    pub run: Option<bool>,
}

/// A query as plain mathematical values.
pub struct QueryView {
    pub tags: Option<Seq<Seq<char>>>,
    pub name_prefixes: Option<Seq<Seq<char>>>,
    pub run: Option<bool>,
}

impl View for ProcessQueryParams {
    type V = QueryView;

    open spec fn view(&self) -> QueryView {
        QueryView {
            tags: optional_texts(self.tags),
            name_prefixes: optional_texts(self.name_prefixes),
            run: self.run,
        }
    }
}

impl Default for ProcessQueryParams {
    /// The query that keeps everything.
    fn default() -> (query: Self)
        ensures
            query@ == (QueryView { tags: None, name_prefixes: None, run: None }),
    {
        ProcessQueryParams { tags: None, name_prefixes: None, run: None }
    }
}

/// The record has tags, and every wanted tag is among them.
pub open spec fn has_all_tags(record: ProcessView, wanted: Seq<Seq<char>>) -> bool {
    match record.tags {
        Some(tags) => forall|i: int| 0 <= i < wanted.len() ==> tags.contains(#[trigger] wanted[i]),
        None => false,
    }
}

/// The record's name begins with one of the prefixes.
pub open spec fn has_any_prefix(record: ProcessView, prefixes: Seq<Seq<char>>) -> bool {
    exists|i: int| 0 <= i < prefixes.len() && (#[trigger] prefixes[i]).is_prefix_of(record.name)
}

/// The tag test: passed by every record when no tags are asked for, and
/// otherwise only by a record that has tags and has all that are asked for.
pub open spec fn passes_tags(record: ProcessView, wanted: Option<Seq<Seq<char>>>) -> bool {
    match wanted {
        Some(tags) => has_all_tags(record, tags),
        None => true,
    }
}

/// The prefix test.
pub open spec fn passes_prefixes(record: ProcessView, prefixes: Option<Seq<Seq<char>>>) -> bool {
    match prefixes {
        Some(list) => has_any_prefix(record, list),
        None => true,
    }
}

/// The run test.
pub open spec fn passes_run(record: ProcessView, run: Option<bool>) -> bool {
    match run {
        Some(flag) => record.run == flag,
        None => true,
    }
}

/// The record passes all three tests of the query.
pub open spec fn matches(record: ProcessView, query: QueryView) -> bool {
    &&& passes_tags(record, query.tags)
    &&& passes_prefixes(record, query.name_prefixes)
    &&& passes_run(record, query.run)
}

/// The tag test as a predicate on records.
pub open spec fn tags_test(wanted: Option<Seq<Seq<char>>>) -> spec_fn(ProcessView) -> bool {
    |record: ProcessView| passes_tags(record, wanted)
}

/// The prefix test as a predicate on records.
pub open spec fn prefixes_test(prefixes: Option<Seq<Seq<char>>>) -> spec_fn(ProcessView) -> bool {
    |record: ProcessView| passes_prefixes(record, prefixes)
}

/// The run test as a predicate on records.
pub open spec fn run_test(run: Option<bool>) -> spec_fn(ProcessView) -> bool {
    |record: ProcessView| passes_run(record, run)
}

/// The whole query as a predicate on records.
pub open spec fn query_test(query: QueryView) -> spec_fn(ProcessView) -> bool {
    |record: ProcessView| matches(record, query)
}

/// A test that every element passes filters nothing out.
pub proof fn lemma_filter_keeps_all<A>(items: Seq<A>, test: spec_fn(A) -> bool)
    requires
        forall|i: int| 0 <= i < items.len() ==> test(#[trigger] items[i]),
    ensures
        items.filter(test) == items,
    decreases items.len(),
{
    reveal(Seq::filter);
    if items.len() > 0 {
        lemma_filter_keeps_all(items.drop_last(), test);
    }
}

/// Filtering by one test and then by another is filtering by both at once.
pub proof fn lemma_filter_twice<A>(
    items: Seq<A>,
    first: spec_fn(A) -> bool,
    second: spec_fn(A) -> bool,
    both: spec_fn(A) -> bool,
)
    requires
        forall|item: A| #[trigger] both(item) == (first(item) && second(item)),
    ensures
        items.filter(first).filter(second) == items.filter(both),
    decreases items.len(),
{
    reveal(Seq::filter);
    if items.len() > 0 {
        let front = items.drop_last();
        let last = items.last();
        lemma_filter_twice(front, first, second, both);
        if first(last) {
            front.filter(first).lemma_filter_push(last, second);
        }
    }
}

/// Whether the text is one of the strings.
fn contains_text(strings: &Vec<String>, wanted: &String) -> (found: bool)
    ensures
        found == texts(strings@).contains(wanted@),
{
    let mut i: usize = 0;
    while i < strings.len()
        invariant
            i <= strings.len(),
            forall|j: int| 0 <= j < i ==> (#[trigger] texts(strings@)[j]) != wanted@,
        decreases strings.len() - i,
    {
        if strings[i] == *wanted {
            assert(texts(strings@)[i as int] == wanted@);
            return true;
        }
        i += 1;
    }
    false
}

/// Whether the record has tags and carries every wanted tag.
fn carries_all_tags(process: &Process, wanted: &Vec<String>) -> (yes: bool)
    ensures
        yes == has_all_tags(process@, texts(wanted@)),
{
    match &process.tags {
        None => false,
        Some(tags) => {
            let mut i: usize = 0;
            while i < wanted.len()
                invariant
                    i <= wanted.len(),
                    process@.tags == Some(texts(tags@)),
                    forall|j: int|
                        0 <= j < i ==> texts(tags@).contains(#[trigger] texts(wanted@)[j]),
                decreases wanted.len() - i,
            {
                if !contains_text(tags, &wanted[i]) {
                    assert(!texts(tags@).contains(texts(wanted@)[i as int]));
                    return false;
                }
                i += 1;
            }
            true
        },
    }
}

/// Whether the record's name begins with one of the prefixes.
fn begins_with_any(process: &Process, prefixes: &Vec<String>) -> (yes: bool)
    ensures
        yes == has_any_prefix(process@, texts(prefixes@)),
{
    let mut i: usize = 0;
    while i < prefixes.len()
        invariant
            i <= prefixes.len(),
            forall|j: int|
                0 <= j < i ==> !(#[trigger] texts(prefixes@)[j]).is_prefix_of(process@.name),
        decreases prefixes.len() - i,
    {
        if starts_with(process.name.as_str(), prefixes[i].as_str()) {
            assert(texts(prefixes@)[i as int].is_prefix_of(process@.name));
            return true;
        }
        i += 1;
    }
    false
}

/// One test of a query, with what it asks for.
enum Test<'a> {
    Tags(&'a Vec<String>),
    Prefixes(&'a Vec<String>),
    Run(bool),
}

impl<'a> Test<'a> {
    /// The test as a predicate on records.
    spec fn predicate(self) -> spec_fn(ProcessView) -> bool {
        match self {
            Test::Tags(wanted) => tags_test(Some(texts(wanted@))),
            Test::Prefixes(prefixes) => prefixes_test(Some(texts(prefixes@))),
            Test::Run(flag) => run_test(Some(flag)),
        }
    }

    /// Whether the record passes the test.
    fn passes(&self, process: &Process) -> (yes: bool)
        ensures
            yes == (self.predicate())(process@),
    {
        match self {
            Test::Tags(wanted) => carries_all_tags(process, wanted),
            Test::Prefixes(prefixes) => begins_with_any(process, prefixes),
            Test::Run(flag) => process.run == *flag,
        }
    }
}

/// Filtering one element more of a sequence: the element joins what was kept
/// of the elements before it if it passes the test, and is left out if not.
pub proof fn lemma_filter_next<A>(items: Seq<A>, i: int, test: spec_fn(A) -> bool)
    requires
        0 <= i < items.len(),
    ensures
        items.take(i + 1).filter(test) == if test(items[i]) {
            items.take(i).filter(test).push(items[i])
        } else {
            items.take(i).filter(test)
        },
{
    assert(items.take(i + 1) =~= items.take(i).push(items[i]));
    items.take(i).lemma_filter_push(items[i], test);
}

/// Keeps the records that pass the test, in their order.
fn keep_passing(processes: Vec<Process>, test: Test) -> (kept: Vec<Process>)
    ensures
        views(kept@) == views(processes@).filter(test.predicate()),
{
    let mut kept: Vec<Process> = Vec::new();
    let mut i: usize = 0;
    while i < processes.len()
        invariant
            i <= processes.len(),
            views(kept@) == views(processes@).take(i as int).filter(test.predicate()),
        decreases processes.len() - i,
    {
        proof {
            lemma_filter_next(views(processes@), i as int, test.predicate());
        }
        if test.passes(&processes[i]) {
            kept.push(processes[i].clone());
        }
        i += 1;
    }
    assert(views(processes@).take(i as int) =~= views(processes@));
    kept
}

/// Keeps the records that pass the tag test.
pub fn filter_processes_by_tags(processes: Vec<Process>, input_tags: &Option<Vec<String>>) -> (kept:
    Vec<Process>)
    ensures
        views(kept@) == views(processes@).filter(tags_test(optional_texts(*input_tags))),
{
    match input_tags {
        None => {
            proof {
                lemma_filter_keeps_all(views(processes@), tags_test(None));
            }
            processes
        },
        Some(wanted) => keep_passing(processes, Test::Tags(wanted)),
    }
}

/// Keeps the records that pass the prefix test.
pub fn filter_processes_by_name_prefix(
    processes: Vec<Process>,
    name_prefixes: &Option<Vec<String>>,
) -> (kept: Vec<Process>)
    ensures
        views(kept@) == views(processes@).filter(prefixes_test(optional_texts(*name_prefixes))),
{
    match name_prefixes {
        None => {
            proof {
                lemma_filter_keeps_all(views(processes@), prefixes_test(None));
            }
            processes
        },
        Some(prefixes) => keep_passing(processes, Test::Prefixes(prefixes)),
    }
}

/// Keeps the records that pass the run test.
pub fn filter_processes_by_run(processes: Vec<Process>, run: &Option<bool>) -> (kept: Vec<Process>)
    ensures
        views(kept@) == views(processes@).filter(run_test(*run)),
{
    match run {
        None => {
            proof {
                lemma_filter_keeps_all(views(processes@), run_test(None));
            }
            processes
        },
        Some(flag) => keep_passing(processes, Test::Run(*flag)),
    }
}

/// Keeps the records that pass every test of the query, in their order.
pub fn filter_processes(processes: Vec<Process>, query: &ProcessQueryParams) -> (kept: Vec<Process>)
    ensures
        views(kept@) == views(processes@).filter(query_test(query@)),
{
    let ghost all = views(processes@);
    let ghost by_tags = tags_test(query@.tags);
    let ghost by_prefixes = prefixes_test(query@.name_prefixes);
    let ghost by_run = run_test(query@.run);
    let ghost by_tags_and_prefixes = |record: ProcessView|
        passes_tags(record, query@.tags) && passes_prefixes(record, query@.name_prefixes);
    let kept = filter_processes_by_tags(processes, &query.tags);
    let kept = filter_processes_by_name_prefix(kept, &query.name_prefixes);
    let kept = filter_processes_by_run(kept, &query.run);
    proof {
        lemma_filter_twice(all, by_tags, by_prefixes, by_tags_and_prefixes);
        lemma_filter_twice(all, by_tags_and_prefixes, by_run, query_test(query@));
    }
    kept
}

} // verus!

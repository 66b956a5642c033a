use process_cache::{
    create_process_at, filter_processes, filter_processes_by_name_prefix,
    filter_processes_by_run, filter_processes_by_tags, MyCache, Process, ProcessQueryParams,
};

fn strings(list: &[&str]) -> Vec<String> {
    list.iter().map(|t| t.to_string()).collect()
}

fn rec(name: &str, run: bool, tags: Option<&[&str]>) -> Process {
    create_process_at(name, run, tags.map(strings), "t0".to_string())
}

fn names(list: &[Process]) -> Vec<String> {
    list.iter().map(|p| p.name.clone()).collect()
}

fn abc() -> Vec<Process> {
    vec![rec("A", true, Some(&["x", "y"])), rec("B", true, Some(&["x"])), rec("C", true, None)]
}

fn query(tags: Option<&[&str]>, prefixes: Option<&[&str]>, run: Option<bool>) -> ProcessQueryParams {
    ProcessQueryParams { tags: tags.map(strings), name_prefixes: prefixes.map(strings), run }
}

#[test]
fn tag_filter_wants_every_tag() {
    let kept = filter_processes(abc(), &query(Some(&["x", "y"]), None, None));
    assert_eq!(names(&kept), vec!["A"]);
}

#[test]
fn tag_filter_with_one_tag() {
    let kept = filter_processes(abc(), &query(Some(&["x"]), None, None));
    assert_eq!(names(&kept), vec!["A", "B"]);
}

#[test]
fn no_tag_query_keeps_all() {
    let kept = filter_processes(abc(), &query(None, None, None));
    assert_eq!(kept, abc());
    let kept = filter_processes(abc(), &ProcessQueryParams::default());
    assert_eq!(kept, abc());
}

#[test]
fn empty_tag_query_drops_untagged_records() {
    let kept = filter_processes_by_tags(abc(), &Some(Vec::new()));
    assert_eq!(names(&kept), vec!["A", "B"]);
}

#[test]
fn tag_filter_ignores_tag_order_and_extra_tags() {
    let kept = filter_processes_by_tags(abc(), &Some(strings(&["y", "x"])));
    assert_eq!(names(&kept), vec!["A"]);
    let kept = filter_processes_by_tags(abc(), &Some(strings(&["z"])));
    assert_eq!(kept, Vec::<Process>::new());
    let kept = filter_processes_by_tags(abc(), &None);
    assert_eq!(kept, abc());
}

#[test]
fn prefix_filter_keeps_names_with_the_prefix() {
    let all = vec![rec("proc-a", true, None), rec("proc-b", true, None), rec("other", true, None)];
    let kept = filter_processes(all, &query(None, Some(&["proc-"]), None));
    assert_eq!(names(&kept), vec!["proc-a", "proc-b"]);
}

#[test]
fn prefix_filter_takes_any_prefix() {
    let all = vec![rec("proc-a", true, None), rec("job-b", true, None), rec("other", true, None)];
    let kept = filter_processes_by_name_prefix(all, &Some(strings(&["job", "oth", "zzz"])));
    assert_eq!(names(&kept), vec!["job-b", "other"]);
}

#[test]
fn prefix_filter_edge_cases() {
    let all = vec![rec("ab", true, None), rec("a", true, None), rec("", true, None)];
    let kept = filter_processes_by_name_prefix(all.clone(), &Some(Vec::new()));
    assert_eq!(kept, Vec::<Process>::new());
    let kept = filter_processes_by_name_prefix(all.clone(), &Some(strings(&[""])));
    assert_eq!(kept, all);
    let kept = filter_processes_by_name_prefix(all.clone(), &Some(strings(&["ab"])));
    assert_eq!(names(&kept), vec!["ab"]);
    let kept = filter_processes_by_name_prefix(all.clone(), &Some(strings(&["abc"])));
    assert_eq!(kept, Vec::<Process>::new());
    let kept = filter_processes_by_name_prefix(all.clone(), &Some(strings(&["b"])));
    assert_eq!(kept, Vec::<Process>::new());
    let kept = filter_processes_by_name_prefix(all.clone(), &None);
    assert_eq!(kept, all);
}

#[test]
fn prefix_filter_with_wide_characters() {
    let all = vec![rec("été-1", true, None), rec("etc", true, None)];
    let kept = filter_processes_by_name_prefix(all, &Some(strings(&["ét"])));
    assert_eq!(names(&kept), vec!["été-1"]);
}

#[test]
fn run_filter_keeps_the_asked_value() {
    let all = vec![rec("a", true, None), rec("b", false, None), rec("c", true, None)];
    assert_eq!(names(&filter_processes_by_run(all.clone(), &Some(true))), vec!["a", "c"]);
    assert_eq!(names(&filter_processes_by_run(all.clone(), &Some(false))), vec!["b"]);
    assert_eq!(filter_processes_by_run(all.clone(), &None), all);
}

#[test]
fn filters_intersect() {
    let all = vec![
        rec("proc-a", true, Some(&["x", "y"])),
        rec("proc-b", false, Some(&["x", "y"])),
        rec("proc-c", true, Some(&["x"])),
        rec("other", true, Some(&["x", "y"])),
        rec("proc-d", true, None),
        rec("proc-e", true, Some(&["y", "q", "x"])),
    ];
    let kept = filter_processes(all, &query(Some(&["x", "y"]), Some(&["proc-"]), Some(true)));
    assert_eq!(names(&kept), vec!["proc-a", "proc-e"]);
}

#[test]
fn filter_keeps_whole_records() {
    let kept = filter_processes(abc(), &query(Some(&["x", "y"]), None, Some(true)));
    assert_eq!(kept, vec![rec("A", true, Some(&["x", "y"]))]);
}

#[test]
fn cache_filter_goes_over_the_snapshot() {
    let cache = MyCache::new(abc(), 100, "F1".to_string());
    let kept = cache.filter_processes(&query(Some(&["x"]), None, None));
    assert_eq!(names(&kept), vec!["A", "B"]);
    let kept = cache.filter_processes(&query(None, None, None));
    assert_eq!(kept, abc());
    assert_eq!(cache.cache_time, 100);
    assert_eq!(cache.etag, "F1");
}

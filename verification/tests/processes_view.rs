use std::collections::HashMap;

use chdig::process::{ProcessRow, QueryProcess};
use chdig::view::{
    explain_pipeline, explain_plan, kill_query, ProcessesView, TraceType, ViewOptions, WorkerEvent,
};

fn events(pairs: &[(&str, u64)]) -> HashMap<String, u64> {
    pairs.iter().map(|(k, v)| (k.to_string(), *v)).collect()
}

fn row(query_id: &str, initial_query_id: &str, elapsed: f64) -> ProcessRow {
    ProcessRow {
        host_name: "host1".to_string(),
        user: "default".to_string(),
        thread_ids: vec![1, 2, 3],
        peak_memory_usage: 1024,
        elapsed_bits: elapsed.to_bits(),
        subqueries: 0,
        is_initial_query: if query_id == initial_query_id { 1 } else { 0 },
        initial_query_id: initial_query_id.to_string(),
        query_id: query_id.to_string(),
        normalized_query: "SELECT ?".to_string(),
        original_query: "SELECT 1".to_string(),
        profile_events: events(&[("OSCPUVirtualTimeMicroseconds", 10)]),
    }
}

fn options(group_by: bool, no_subqueries: bool) -> ViewOptions {
    ViewOptions { group_by, no_subqueries }
}

fn ids(v: &Vec<QueryProcess>) -> Vec<String> {
    v.iter().map(|p| p.query_id.clone()).collect()
}

#[test]
fn new_view_is_empty() {
    let view = ProcessesView::new(options(false, false), false);
    assert!(view.items().is_empty());
    assert!(view.table().is_empty());
    assert!(view.query_id().is_none());
}

#[test]
fn update_builds_processes_from_rows() {
    let mut view = ProcessesView::new(options(false, false), false);
    let select_first = view.update(vec![row("a", "a", 1.5), row("b", "a", 0.5)]);
    assert!(select_first);
    assert_eq!(ids(view.items()), vec!["a", "b"]);
    let a = &view.items()[0];
    assert_eq!(a.threads, 3);
    assert_eq!(a.memory, 1024);
    assert!(a.is_initial_query);
    assert!(!view.items()[1].is_initial_query);
    assert_eq!(a.elapsed_bits, 1.5f64.to_bits());
    assert_eq!(a.prev_elapsed_bits, None);
    assert!(a.prev_profile_events.is_none());
    assert_eq!(ids(view.table()), vec!["a", "b"]);
}

#[test]
fn update_selects_first_row_only_for_an_empty_table() {
    let mut view = ProcessesView::new(options(false, false), false);
    assert!(view.update(vec![row("a", "a", 1.0)]));
    assert!(!view.update(vec![row("a", "a", 2.0)]));
    assert!(!view.update(vec![]));
    assert!(view.table().is_empty());
    assert!(view.update(vec![row("b", "b", 1.0)]));
}

#[test]
fn update_keeps_previous_elapsed_and_profile_events() {
    let mut view = ProcessesView::new(options(false, false), false);
    view.update(vec![row("a", "a", 1.0), row("b", "b", 3.0)]);
    let mut second = row("a", "a", 2.0);
    second.profile_events = events(&[("OSCPUVirtualTimeMicroseconds", 25)]);
    view.update(vec![second, row("c", "c", 0.25)]);
    assert_eq!(ids(view.items()), vec!["a", "c"]);
    let a = &view.items()[0];
    assert_eq!(a.elapsed_bits, 2.0f64.to_bits());
    assert_eq!(a.prev_elapsed_bits, Some(1.0f64.to_bits()));
    assert_eq!(
        a.prev_profile_events,
        Some(events(&[("OSCPUVirtualTimeMicroseconds", 10)]))
    );
    assert_eq!(a.profile_events, events(&[("OSCPUVirtualTimeMicroseconds", 25)]));
    let c = &view.items()[1];
    assert_eq!(c.prev_elapsed_bits, None);
    assert!(c.prev_profile_events.is_none());
}

#[test]
fn update_keeps_the_last_row_of_a_query_id() {
    let mut view = ProcessesView::new(options(false, false), false);
    view.update(vec![row("a", "a", 7.0)]);
    view.update(vec![row("a", "a", 1.0), row("b", "b", 1.0), row("a", "a", 9.0)]);
    assert_eq!(ids(view.items()), vec!["a", "b"]);
    assert_eq!(view.items()[0].elapsed_bits, 9.0f64.to_bits());
    assert_eq!(view.items()[0].prev_elapsed_bits, Some(7.0f64.to_bits()));
}

#[test]
fn update_flags_initial_query_only_for_one() {
    let mut view = ProcessesView::new(options(false, false), false);
    let mut r = row("a", "a", 1.0);
    r.is_initial_query = 2;
    view.update(vec![r]);
    assert!(!view.items()[0].is_initial_query);
}

#[test]
fn grouping_shows_only_initial_queries() {
    let mut view = ProcessesView::new(options(true, false), false);
    view.update(vec![row("a", "a", 1.0), row("b", "a", 1.0), row("c", "c", 1.0)]);
    assert_eq!(ids(view.table()), vec!["a", "c"]);
    assert_eq!(ids(view.items()), vec!["a", "b", "c"]);
}

#[test]
fn queries_on_shards_and_back() {
    let mut view = ProcessesView::new(options(true, false), false);
    view.update(vec![row("a", "a", 1.0), row("b", "a", 1.0), row("c", "c", 1.0)]);
    let selected = view.table()[0].clone();
    assert_eq!(view.show_queries_on_shards(Some(&selected)), Some(false));
    assert_eq!(view.query_id().unwrap(), "a");
    assert_eq!(ids(view.table()), vec!["a", "b"]);
    // the filter stays through updates
    view.update(vec![row("b", "a", 2.0), row("c", "c", 2.0), row("d", "a", 2.0)]);
    assert_eq!(ids(view.table()), vec!["b", "d"]);
    assert!(!view.show_all_queries());
    assert!(view.query_id().is_none());
    assert_eq!(ids(view.table()), vec!["c"]);
    assert_eq!(view.show_queries_on_shards(None), None);
    assert_eq!(ids(view.table()), vec!["c"]);
}

#[test]
fn flamegraph_gathers_subqueries() {
    let mut view = ProcessesView::new(options(false, false), false);
    view.update(vec![row("a", "a", 1.0), row("b", "a", 1.0), row("c", "c", 1.0)]);
    let selected = view.items()[0].clone();
    match view.show_flamegraph(Some(&selected), Some(TraceType::CPU)) {
        Some(WorkerEvent::ShowQueryFlameGraph(TraceType::CPU, ids)) => {
            assert_eq!(ids, vec!["a", "a", "b"])
        }
        _ => panic!("expected a CPU flamegraph"),
    }
    match view.show_flamegraph(Some(&selected), None) {
        Some(WorkerEvent::ShowLiveQueryFlameGraph(ids)) => assert_eq!(ids, vec!["a", "a", "b"]),
        _ => panic!("expected a live flamegraph"),
    }
    assert!(view.show_flamegraph(None, Some(TraceType::Real)).is_none());
}

#[test]
fn flamegraph_without_subqueries() {
    let mut view = ProcessesView::new(options(false, true), false);
    view.update(vec![row("a", "a", 1.0), row("b", "a", 1.0)]);
    let selected = view.items()[0].clone();
    match view.show_flamegraph(Some(&selected), Some(TraceType::Memory)) {
        Some(WorkerEvent::ShowQueryFlameGraph(TraceType::Memory, ids)) => {
            assert_eq!(ids, vec!["a"])
        }
        _ => panic!("expected a memory flamegraph"),
    }
    assert_eq!(view.related_query_ids(&"zz".to_string()), vec!["zz"]);
}

#[test]
fn related_query_ids_of_a_subquery() {
    let mut view = ProcessesView::new(options(false, false), false);
    view.update(vec![row("a", "a", 1.0), row("b", "a", 1.0)]);
    assert_eq!(view.related_query_ids(&"b".to_string()), vec!["b"]);
    assert_eq!(view.related_query_ids(&"a".to_string()), vec!["a", "a", "b"]);
}

#[test]
fn explain_and_kill_requests() {
    let mut view = ProcessesView::new(options(false, false), false);
    view.update(vec![row("q1", "q1", 1.0)]);
    let selected = view.items()[0].clone();
    match explain_plan(Some(&selected)) {
        Some(WorkerEvent::ExplainPlan(q)) => assert_eq!(q, "SELECT 1"),
        _ => panic!("expected a plan request"),
    }
    match explain_pipeline(Some(&selected)) {
        Some(WorkerEvent::ExplainPipeline(q)) => assert_eq!(q, "SELECT 1"),
        _ => panic!("expected a pipeline request"),
    }
    let kill = kill_query(Some(&selected)).unwrap();
    assert_eq!(kill.prompt, "Are you sure you want to KILL QUERY with query_id = q1");
    match kill.event {
        WorkerEvent::KillQuery(id) => assert_eq!(id, "q1"),
        _ => panic!("expected a kill request"),
    }
    assert!(explain_plan(None).is_none());
    assert!(explain_pipeline(None).is_none());
    assert!(kill_query(None).is_none());
}

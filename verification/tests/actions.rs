use std::collections::HashMap;

use chdig::actions::{action_for_key, submit_action, view_actions, Effect, LogTables, ViewAction};
use chdig::columns::SortOrder;
use chdig::process::{ProcessRow, QueryProcessesColumn};
use chdig::queries::{processor_columns, processors_query, view_columns, views_query};
use chdig::view::{ProcessesView, TraceType, ViewOptions, WorkerEvent};

fn row(query_id: &str, initial_query_id: &str) -> ProcessRow {
    ProcessRow {
        host_name: "h".to_string(),
        user: "u".to_string(),
        thread_ids: vec![],
        peak_memory_usage: 0,
        elapsed_bits: 1.0f64.to_bits(),
        subqueries: 0,
        is_initial_query: if query_id == initial_query_id { 1 } else { 0 },
        initial_query_id: initial_query_id.to_string(),
        query_id: query_id.to_string(),
        normalized_query: "SELECT ?".to_string(),
        original_query: "SELECT 42".to_string(),
        profile_events: HashMap::new(),
    }
}

fn tables() -> LogTables {
    LogTables {
        processors_profile_log: "system.processors_profile_log".to_string(),
        query_views_log: "system.query_views_log".to_string(),
    }
}

fn view() -> ProcessesView {
    let mut view = ProcessesView::new(ViewOptions { group_by: true, no_subqueries: false }, true);
    view.update(vec![row("a", "a"), row("b", "a"), row("c", "c")]);
    view
}

#[test]
fn keys_and_titles() {
    let expected = [
        ("Show all queries", '-'),
        ("Show queries on shards", '+'),
        ("Query details", 'D'),
        ("Query processors", 'P'),
        ("Query views", 'v'),
        ("Show CPU flamegraph", 'C'),
        ("Show Real flamegraph", 'R'),
        ("Show memory flamegraph", 'M'),
        ("Show live flamegraph", 'L'),
        ("EXPLAIN PLAN", 'e'),
        ("EXPLAIN PIPELINE", 'E'),
        ("KILL query", 'K'),
        ("Show query logs", 'l'),
    ];
    let actions = view_actions();
    assert_eq!(actions.len(), expected.len());
    for (action, (title, key)) in actions.iter().zip(expected.iter()) {
        assert_eq!(action.title(), *title);
        assert_eq!(action.key(), *key);
        assert_eq!(action_for_key(*key), Some(*action));
    }
    assert_eq!(action_for_key('x'), None);
    assert_eq!(action_for_key('c'), None);
}

#[test]
fn new_view_has_columns_and_sort() {
    let view = ProcessesView::new(ViewOptions { group_by: false, no_subqueries: false }, true);
    let columns: Vec<QueryProcessesColumn> = view.columns().iter().map(|c| c.column).collect();
    assert_eq!(columns[0], QueryProcessesColumn::HostName);
    assert_eq!(columns[1], QueryProcessesColumn::SubQueries);
    assert_eq!(columns.len(), 11);
    assert_eq!(view.sort(), (QueryProcessesColumn::Elapsed, SortOrder::Descending));
    let plain = ProcessesView::new(ViewOptions { group_by: false, no_subqueries: true }, false);
    assert_eq!(plain.columns()[0].column, QueryProcessesColumn::QueryId);
    assert_eq!(plain.columns().len(), 9);
}

#[test]
fn actions_without_selection() {
    let mut v = view();
    for action in view_actions() {
        let effect = v.on_action(action, None, &tables());
        match action {
            ViewAction::ShowAllQueries => assert!(matches!(effect, Some(Effect::RefreshTable(false)))),
            _ => assert!(effect.is_none()),
        }
    }
}

#[test]
fn filter_actions() {
    let mut v = view();
    let selected = v.items()[0].clone();
    match v.on_action(ViewAction::ShowQueriesOnShards, Some(&selected), &tables()) {
        Some(Effect::RefreshTable(false)) => {}
        _ => panic!("expected a refresh"),
    }
    let shown: Vec<String> = v.table().iter().map(|p| p.query_id.clone()).collect();
    assert_eq!(shown, vec!["a", "b"]);
    match v.on_action(ViewAction::ShowAllQueries, Some(&selected), &tables()) {
        Some(Effect::RefreshTable(false)) => {}
        _ => panic!("expected a refresh"),
    }
    let shown: Vec<String> = v.table().iter().map(|p| p.query_id.clone()).collect();
    assert_eq!(shown, vec!["a", "c"]);
}

#[test]
fn flamegraph_actions() {
    let mut v = view();
    let selected = v.items()[0].clone();
    let cases = [
        (ViewAction::ShowCpuFlamegraph, Some(TraceType::CPU)),
        (ViewAction::ShowRealFlamegraph, Some(TraceType::Real)),
        (ViewAction::ShowMemoryFlamegraph, Some(TraceType::Memory)),
        (ViewAction::ShowLiveFlamegraph, None),
    ];
    for (action, trace) in cases {
        match (v.on_action(action, Some(&selected), &tables()), trace) {
            (Some(Effect::Send(WorkerEvent::ShowQueryFlameGraph(t, ids))), Some(expected)) => {
                assert_eq!(t, expected);
                assert_eq!(ids, vec!["a", "a", "b"]);
            }
            (Some(Effect::Send(WorkerEvent::ShowLiveQueryFlameGraph(ids))), None) => {
                assert_eq!(ids, vec!["a", "a", "b"]);
            }
            _ => panic!("unexpected effect for {:?}", action),
        }
    }
}

#[test]
fn request_actions() {
    let mut v = view();
    let selected = v.items()[0].clone();
    match v.on_action(ViewAction::ExplainPlan, Some(&selected), &tables()) {
        Some(Effect::Send(WorkerEvent::ExplainPlan(q))) => assert_eq!(q, "SELECT 42"),
        _ => panic!("expected a plan request"),
    }
    match v.on_action(ViewAction::ExplainPipeline, Some(&selected), &tables()) {
        Some(Effect::Send(WorkerEvent::ExplainPipeline(q))) => assert_eq!(q, "SELECT 42"),
        _ => panic!("expected a pipeline request"),
    }
    match v.on_action(ViewAction::KillQuery, Some(&selected), &tables()) {
        Some(Effect::ConfirmKill(k)) => {
            assert_eq!(k.prompt, "Are you sure you want to KILL QUERY with query_id = a");
            assert!(matches!(k.event, WorkerEvent::KillQuery(ref id) if id == "a"));
        }
        _ => panic!("expected a kill confirmation"),
    }
    match v.on_action(ViewAction::QueryDetails, Some(&selected), &tables()) {
        Some(Effect::ShowDetails(p)) => assert_eq!(p.query_id, "a"),
        _ => panic!("expected details"),
    }
    match v.on_action(ViewAction::ShowQueryLogs, Some(&selected), &tables()) {
        Some(Effect::ShowLogs(ids)) => assert_eq!(ids, vec!["a", "a", "b"]),
        _ => panic!("expected logs"),
    }
}

#[test]
fn profile_actions() {
    let mut v = view();
    let selected = v.items()[0].clone();
    let ids = vec!["a".to_string(), "a".to_string(), "b".to_string()];
    let names = LogTables {
        processors_profile_log: "clusterAllReplicas('c', system.processors_profile_log)".to_string(),
        query_views_log: "clusterAllReplicas('c', system.query_views_log)".to_string(),
    };
    match v.on_action(ViewAction::QueryProcessors, Some(&selected), &names) {
        Some(Effect::ShowQueryResult(r)) => {
            assert_eq!(r.heading, "Processors:");
            assert_eq!(r.table, "system.processors_profile_log");
            assert_eq!(r.sort_by, "elapsed_sec");
            assert_eq!(r.columns, processor_columns());
            assert_eq!(r.query, processors_query(&names.processors_profile_log, &ids));
            assert!(r.query.contains("query_id IN ('a','a','b')"));
        }
        _ => panic!("expected a processors query"),
    }
    match v.on_action(ViewAction::QueryViews, Some(&selected), &names) {
        Some(Effect::ShowQueryResult(r)) => {
            assert_eq!(r.heading, "Views:");
            assert_eq!(r.table, "system.query_views_log");
            assert_eq!(r.sort_by, "view_duration_ms");
            assert_eq!(r.columns, view_columns());
            assert_eq!(r.query, views_query(&names.query_views_log, &ids));
        }
        _ => panic!("expected a views query"),
    }
}

#[test]
fn submitting_a_row_shows_its_logs() {
    assert_eq!(submit_action(), ViewAction::ShowQueryLogs);
    assert_eq!(action_for_key('l'), Some(submit_action()));
    let mut v = view();
    let selected = v.items()[1].clone();
    match v.on_action(submit_action(), Some(&selected), &tables()) {
        Some(Effect::ShowLogs(ids)) => assert_eq!(ids, vec!["b"]),
        _ => panic!("expected logs"),
    }
}

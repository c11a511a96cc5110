use std::cmp::Ordering;
use std::collections::HashMap;

use chdig::columns::table_columns;
use chdig::columns::SortOrder;
use chdig::order::{compare_float_bits, compare_text, sort_ordering};
use chdig::process::{QueryProcess, QueryProcessesColumn};
use chdig::text::format_size;

fn process(query_id: &str, subqueries: u64, is_initial_query: bool) -> QueryProcess {
    QueryProcess {
        host_name: "host1".to_string(),
        user: "default".to_string(),
        threads: 12,
        memory: 512,
        elapsed_bits: 2.5f64.to_bits(),
        subqueries,
        is_initial_query,
        initial_query_id: query_id.to_string(),
        query_id: query_id.to_string(),
        normalized_query: "SELECT ?".to_string(),
        original_query: "SELECT 1".to_string(),
        profile_events: HashMap::new(),
        prev_elapsed_bits: None,
        prev_profile_events: None,
    }
}

#[test]
fn column_texts() {
    let p = process("q1", 3, true);
    let text = |c| p.to_column(c);
    assert_eq!(text(QueryProcessesColumn::HostName).unwrap(), "host1");
    assert_eq!(text(QueryProcessesColumn::SubQueries).unwrap(), "3");
    assert_eq!(text(QueryProcessesColumn::User).unwrap(), "default");
    assert_eq!(text(QueryProcessesColumn::Threads).unwrap(), "12");
    assert_eq!(process("q", 0, true).to_column(QueryProcessesColumn::SubQueries).unwrap(), "0");
    assert_eq!(
        process("q", u64::MAX, true).to_column(QueryProcessesColumn::SubQueries).unwrap(),
        u64::MAX.to_string()
    );
    assert_eq!(text(QueryProcessesColumn::Memory).unwrap(), "512 B");
    assert_eq!(text(QueryProcessesColumn::QueryId).unwrap(), "-> q1");
    assert_eq!(text(QueryProcessesColumn::Query).unwrap(), "SELECT ?");
    assert!(text(QueryProcessesColumn::Cpu).is_none());
    assert!(text(QueryProcessesColumn::DiskIO).is_none());
    assert!(text(QueryProcessesColumn::NetIO).is_none());
    assert!(text(QueryProcessesColumn::Elapsed).is_none());
}

#[test]
fn column_texts_of_a_subquery() {
    let p = process("q2", 3, false);
    assert_eq!(p.to_column(QueryProcessesColumn::SubQueries).unwrap(), "1");
    assert_eq!(p.to_column(QueryProcessesColumn::QueryId).unwrap(), "q2");
    let single = process("q3", 1, true);
    assert_eq!(single.to_column(QueryProcessesColumn::QueryId).unwrap(), "q3");
    assert_eq!(single.to_column(QueryProcessesColumn::SubQueries).unwrap(), "1");
}

#[test]
fn sizes_in_binary_units() {
    assert_eq!(format_size(0), "0 B");
    assert_eq!(format_size(1023), "1023 B");
    assert_eq!(format_size(1550), "1.51 KiB");
    assert_eq!(format_size(-2048), "-2.00 KiB");
    assert_eq!(format_size(3 * 1024 * 1024), "3.00 MiB");
}

#[test]
fn equal_items_share_the_query_id() {
    let a = process("q1", 1, true);
    let mut b = process("q1", 5, false);
    b.user = "other".to_string();
    assert!(a == b);
    assert!(a != process("q2", 1, true));
}

#[test]
fn text_order_matches_string_order() {
    let words = ["", "a", "ab", "b", "B", "é", "z", "ä", "äb", "日本", "a\u{10000}", "a\u{ffff}"];
    for x in words.iter() {
        for y in words.iter() {
            assert_eq!(
                compare_text(&x.to_string(), &y.to_string()),
                x.to_string().cmp(&y.to_string()),
                "{:?} {:?}",
                x,
                y
            );
        }
    }
}

#[test]
fn float_order_matches_total_cmp() {
    let values = [
        f64::NEG_INFINITY,
        -1e300,
        -2.5,
        -0.0,
        0.0,
        1e-310,
        2.5,
        f64::INFINITY,
        f64::NAN,
        -f64::NAN,
    ];
    for x in values.iter() {
        for y in values.iter() {
            assert_eq!(compare_float_bits(x.to_bits(), y.to_bits()), x.total_cmp(y));
        }
    }
}

#[test]
fn ordering_by_columns() {
    let mut a = process("a", 1, true);
    let mut b = process("b", 2, true);
    a.memory = 10;
    b.memory = -10;
    a.elapsed_bits = 1.0f64.to_bits();
    b.elapsed_bits = 0.5f64.to_bits();
    assert_eq!(a.cmp(&b, QueryProcessesColumn::QueryId), Some(Ordering::Less));
    assert_eq!(a.cmp(&b, QueryProcessesColumn::SubQueries), Some(Ordering::Less));
    assert_eq!(a.cmp(&b, QueryProcessesColumn::Memory), Some(Ordering::Greater));
    assert_eq!(a.cmp(&b, QueryProcessesColumn::Elapsed), Some(Ordering::Greater));
    assert_eq!(a.cmp(&b, QueryProcessesColumn::Threads), Some(Ordering::Equal));
    assert_eq!(a.cmp(&b, QueryProcessesColumn::User), Some(Ordering::Equal));
    assert_eq!(a.cmp(&b, QueryProcessesColumn::HostName), Some(Ordering::Equal));
    assert_eq!(a.cmp(&b, QueryProcessesColumn::Query), Some(Ordering::Equal));
    assert_eq!(a.cmp(&b, QueryProcessesColumn::Cpu), None);
    assert_eq!(a.cmp(&b, QueryProcessesColumn::DiskIO), None);
    assert_eq!(a.cmp(&b, QueryProcessesColumn::NetIO), None);
    // flipping the operands flips the result
    assert_eq!(b.cmp(&a, QueryProcessesColumn::Elapsed), Some(Ordering::Less));
    assert_eq!(b.cmp(&a, QueryProcessesColumn::QueryId), Some(Ordering::Greater));
}

#[test]
fn sort_orderings() {
    assert_eq!(sort_ordering(SortOrder::Descending), Ordering::Greater);
    assert_eq!(sort_ordering(SortOrder::Ascending), Ordering::Less);
}

#[test]
fn comparing_a_process_with_itself() {
    let mut p = process("q", 2, true);
    p.elapsed_bits = f64::NAN.to_bits();
    for c in [
        QueryProcessesColumn::HostName,
        QueryProcessesColumn::SubQueries,
        QueryProcessesColumn::User,
        QueryProcessesColumn::Threads,
        QueryProcessesColumn::Memory,
        QueryProcessesColumn::Elapsed,
        QueryProcessesColumn::QueryId,
        QueryProcessesColumn::Query,
    ] {
        assert_eq!(p.cmp(&p, c), Some(Ordering::Equal));
    }
}

fn layout(no_subqueries: bool, has_cluster: bool) -> Vec<(QueryProcessesColumn, String, Option<usize>)> {
    table_columns(no_subqueries, has_cluster)
        .into_iter()
        .map(|c| (c.column, c.title, c.width))
        .collect()
}

#[test]
fn table_columns_layout() {
    let base = vec![
        (QueryProcessesColumn::QueryId, "query_id".to_string(), Some(12)),
        (QueryProcessesColumn::Cpu, "cpu".to_string(), Some(8)),
        (QueryProcessesColumn::User, "user".to_string(), Some(8)),
        (QueryProcessesColumn::Threads, "thr".to_string(), Some(6)),
        (QueryProcessesColumn::Memory, "mem".to_string(), Some(6)),
        (QueryProcessesColumn::DiskIO, "disk".to_string(), Some(7)),
        (QueryProcessesColumn::NetIO, "net".to_string(), Some(6)),
        (QueryProcessesColumn::Elapsed, "elapsed".to_string(), Some(11)),
        (QueryProcessesColumn::Query, "query".to_string(), None),
    ];
    assert_eq!(layout(true, false), base);
    let mut with_subqueries = vec![(QueryProcessesColumn::SubQueries, "Q#".to_string(), Some(5))];
    with_subqueries.extend(base.clone());
    assert_eq!(layout(false, false), with_subqueries);
    let mut with_host = vec![(QueryProcessesColumn::HostName, "host".to_string(), Some(8))];
    with_host.extend(with_subqueries.clone());
    assert_eq!(layout(false, true), with_host);
    let mut host_only = vec![(QueryProcessesColumn::HostName, "host".to_string(), Some(8))];
    host_only.extend(base);
    assert_eq!(layout(true, true), host_only);
}

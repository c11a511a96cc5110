use chdig::queries::{join_strings, processor_columns, processors_query, view_columns, views_query};

fn strings(v: &[&str]) -> Vec<String> {
    v.iter().map(|s| s.to_string()).collect()
}

#[test]
fn joining() {
    assert_eq!(join_strings(&strings(&[]), ", "), "");
    assert_eq!(join_strings(&strings(&["a"]), ", "), "a");
    assert_eq!(join_strings(&strings(&["a", "b", "c"]), "','"), "a','b','c");
}

#[test]
fn processors_query_text() {
    let columns = processor_columns();
    let query = processors_query("system.processors_profile_log", &strings(&["q1", "q2"]));
    let expected = format!(
        r#"SELECT {}
                FROM {}
                WHERE
                    // TODO: extract from the query
                    event_date >= yesterday() AND
                    query_id IN ('{}')
                GROUP BY name
                ORDER BY name ASC
                "#,
        columns.join(", "),
        "system.processors_profile_log",
        "q1','q2",
    );
    assert_eq!(query, expected);
    assert_eq!(columns.len(), 8);
    assert_eq!(columns[0], "name");
    assert_eq!(columns[7], "round(bytes/elapsed_sec,2)/1e6 bytes_per_sec");
}

#[test]
fn views_query_text() {
    let columns = view_columns();
    assert_eq!(columns, strings(&["view_name", "view_duration_ms"]));
    let query = views_query("cluster('c', system.query_views_log)", &strings(&["q1"]));
    let expected = "SELECT view_name, view_duration_ms\n                FROM cluster('c', system.query_views_log)\n                WHERE\n                    // TODO: extract from the query\n                    event_date >= yesterday() AND\n                    initial_query_id IN ('q1')\n                ORDER BY view_duration_ms DESC\n                ";
    assert_eq!(query, expected);
}

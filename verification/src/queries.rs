//! The SQL that the view sends to inspect the processors and the views of a
//! query.
use vstd::prelude::*;

use crate::view::string_models;

verus! {

/// The parts joined with `sep` between each two.
pub open spec fn join(parts: Seq<Seq<char>>, sep: Seq<char>) -> Seq<char>
    decreases parts.len(),
{
    if parts.len() == 0 {
        Seq::empty()
    } else if parts.len() == 1 {
        parts[0]
    } else {
        join(parts.drop_last(), sep) + sep + parts.last()
    }
}

/// Joins `parts` with `sep` between each two.
pub fn join_strings(parts: &Vec<String>, sep: &str) -> (res: String)
    ensures
        res@ == join(string_models(parts@), sep@),
{
    let ghost all = string_models(parts@);
    let mut res = String::new();
    let mut i: usize = 0;
    assert(res@ =~= join(all.take(0), sep@));
    while i < parts.len()
        invariant
            i <= parts.len(),
            all == string_models(parts@),
            res@ == join(all.take(i as int), sep@),
        decreases parts.len() - i,
    {
        assert(all.take(i + 1).drop_last() =~= all.take(i as int));
        assert(all.take(i + 1).last() == parts@[i as int]@);
        if i == 0 {
            assert(all.take(1) =~= seq![parts@[0]@]);
        } else {
            res.append(sep);
        }
        res.append(parts[i].as_str());
        i = i + 1;
    }
    assert(all.take(all.len() as int) =~= all);
    res
}

/// The columns shown for the processors of a query.
pub open spec fn processor_column_names() -> Seq<Seq<char>> {
    seq![
        "name"@,
        "count() count"@,
        "sum(elapsed_us)/1e6 elapsed_sec"@,
        "sum(input_wait_elapsed_us)/1e6 input_wait_sec"@,
        "sum(output_wait_elapsed_us)/1e6 output_wait_sec"@,
        "sum(input_rows) rows"@,
        "sum(input_bytes) bytes"@,
        "round(bytes/elapsed_sec,2)/1e6 bytes_per_sec"@,
    ]
}

/// The columns shown for the views of a query.
pub open spec fn view_column_names() -> Seq<Seq<char>> {
    seq!["view_name"@, "view_duration_ms"@]
}

/// The columns shown for the processors of a query.
pub fn processor_columns() -> (res: Vec<String>)
    ensures
        string_models(res@) == processor_column_names(),
{
    let res = vec![
        String::from_str("name"),
        String::from_str("count() count"),
        String::from_str("sum(elapsed_us)/1e6 elapsed_sec"),
        String::from_str("sum(input_wait_elapsed_us)/1e6 input_wait_sec"),
        String::from_str("sum(output_wait_elapsed_us)/1e6 output_wait_sec"),
        String::from_str("sum(input_rows) rows"),
        String::from_str("sum(input_bytes) bytes"),
        String::from_str("round(bytes/elapsed_sec,2)/1e6 bytes_per_sec"),
    ];
    assert(string_models(res@) =~= processor_column_names());
    res
}

/// The columns shown for the views of a query.
pub fn view_columns() -> (res: Vec<String>)
    ensures
        string_models(res@) == view_column_names(),
{
    let res = vec![String::from_str("view_name"), String::from_str("view_duration_ms")];
    assert(string_models(res@) =~= view_column_names());
    res
}

/// The query over the processors profile log `dbtable` for the given query
/// ids, one row per processor name.
pub open spec fn processors_query_text(dbtable: Seq<char>, query_ids: Seq<Seq<char>>) -> Seq<char> {
    "SELECT "@ + join(processor_column_names(), ", "@) + "\n                FROM "@ + dbtable
        + "\n                WHERE\n                    // TODO: extract from the query\n                    event_date >= yesterday() AND\n                    query_id IN ('"@
        + join(query_ids, "','"@)
        + "')\n                GROUP BY name\n                ORDER BY name ASC\n                "@
}

/// The query over the query views log `dbtable` for the given initial query
/// ids, slowest view first.
pub open spec fn views_query_text(dbtable: Seq<char>, query_ids: Seq<Seq<char>>) -> Seq<char> {
    "SELECT "@ + join(view_column_names(), ", "@) + "\n                FROM "@ + dbtable
        + "\n                WHERE\n                    // TODO: extract from the query\n                    event_date >= yesterday() AND\n                    initial_query_id IN ('"@
        + join(query_ids, "','"@)
        + "')\n                ORDER BY view_duration_ms DESC\n                "@
}

/// Joining: nothing gives the empty text, one part gives the part, and each
/// further part comes after the separator.
pub proof fn lemma_join(parts: Seq<Seq<char>>, x: Seq<char>, y: Seq<char>, sep: Seq<char>)
    ensures
        join(Seq::empty(), sep) == Seq::<char>::empty(),
        join(seq![x], sep) == x,
        join(seq![x, y], sep) == x + sep + y,
        parts.len() > 0 ==> join(parts.push(x), sep) == join(parts, sep) + sep + x,
{
    assert(seq![x, y].drop_last() =~= seq![x]);
    assert(join(seq![x], sep) == x);
    assert(seq![x, y].last() == y);
    assert(join(seq![x, y], sep) == join(seq![x], sep) + sep + y);
    assert(parts.push(x).drop_last() =~= parts);
}

/// The views query, written out: the two view columns from `dbtable`, for
/// the initial query ids joined as `'id1','id2',...` inside `IN (...)`,
/// slowest view first.
pub proof fn lemma_views_query_text(dbtable: Seq<char>, query_ids: Seq<Seq<char>>)
    ensures
        views_query_text(dbtable, query_ids) == "SELECT view_name, view_duration_ms\n                FROM "@
            + dbtable
            + "\n                WHERE\n                    // TODO: extract from the query\n                    event_date >= yesterday() AND\n                    initial_query_id IN ('"@
            + join(query_ids, "','"@) + "')\n                ORDER BY view_duration_ms DESC\n                "@,
{
    lemma_join(Seq::empty(), "view_name"@, "view_duration_ms"@, ", "@);
    reveal_strlit("SELECT ");
    reveal_strlit("view_name");
    reveal_strlit(", ");
    reveal_strlit("view_duration_ms");
    reveal_strlit("\n                FROM ");
    reveal_strlit("SELECT view_name, view_duration_ms\n                FROM ");
    assert("SELECT "@ + join(view_column_names(), ", "@) + "\n                FROM "@
        =~= "SELECT view_name, view_duration_ms\n                FROM "@);
}

/// The processors query, written out: the processor columns from
/// `dbtable`, for the query ids joined as `'id1','id2',...` inside
/// `IN (...)`, one row per processor name in name order.
pub proof fn lemma_processors_query_text(dbtable: Seq<char>, query_ids: Seq<Seq<char>>)
    ensures
        processors_query_text(dbtable, query_ids)
            == "SELECT name, count() count, sum(elapsed_us)/1e6 elapsed_sec, sum(input_wait_elapsed_us)/1e6 input_wait_sec, sum(output_wait_elapsed_us)/1e6 output_wait_sec, sum(input_rows) rows, sum(input_bytes) bytes, round(bytes/elapsed_sec,2)/1e6 bytes_per_sec\n                FROM "@
            + dbtable
            + "\n                WHERE\n                    // TODO: extract from the query\n                    event_date >= yesterday() AND\n                    query_id IN ('"@
            + join(query_ids, "','"@) + "')\n                GROUP BY name\n                ORDER BY name ASC\n                "@,
{
    let names = processor_column_names();
    let sep = ", "@;
    reveal_with_fuel(join, 9);
    reveal_strlit("SELECT ");
    reveal_strlit("name");
    reveal_strlit("count() count");
    reveal_strlit("sum(elapsed_us)/1e6 elapsed_sec");
    reveal_strlit("sum(input_wait_elapsed_us)/1e6 input_wait_sec");
    reveal_strlit("sum(output_wait_elapsed_us)/1e6 output_wait_sec");
    reveal_strlit("sum(input_rows) rows");
    reveal_strlit("sum(input_bytes) bytes");
    reveal_strlit("round(bytes/elapsed_sec,2)/1e6 bytes_per_sec");
    reveal_strlit(", ");
    reveal_strlit("\n                FROM ");
    reveal_strlit(
        "SELECT name, count() count, sum(elapsed_us)/1e6 elapsed_sec, sum(input_wait_elapsed_us)/1e6 input_wait_sec, sum(output_wait_elapsed_us)/1e6 output_wait_sec, sum(input_rows) rows, sum(input_bytes) bytes, round(bytes/elapsed_sec,2)/1e6 bytes_per_sec\n                FROM ",
    );
    assert(names.drop_last().drop_last().drop_last().drop_last().drop_last().drop_last().drop_last()
        =~= seq![names[0]]);
    assert("SELECT "@ + join(names, sep) + "\n                FROM "@
        =~= "SELECT name, count() count, sum(elapsed_us)/1e6 elapsed_sec, sum(input_wait_elapsed_us)/1e6 input_wait_sec, sum(output_wait_elapsed_us)/1e6 output_wait_sec, sum(input_rows) rows, sum(input_bytes) bytes, round(bytes/elapsed_sec,2)/1e6 bytes_per_sec\n                FROM "@);
}

/// The query over the processors profile log `dbtable` for `query_ids`.
pub fn processors_query(dbtable: &str, query_ids: &Vec<String>) -> (res: String)
    ensures
        res@ == processors_query_text(dbtable@, string_models(query_ids@)),
{
    let columns = processor_columns();
    let mut res = String::from_str("SELECT ");
    res.append(join_strings(&columns, ", ").as_str());
    res.append("\n                FROM ");
    res.append(dbtable);
    res.append(
        "\n                WHERE\n                    // TODO: extract from the query\n                    event_date >= yesterday() AND\n                    query_id IN ('",
    );
    res.append(join_strings(query_ids, "','").as_str());
    res.append("')\n                GROUP BY name\n                ORDER BY name ASC\n                ");
    res
}

/// The query over the query views log `dbtable` for `query_ids`.
pub fn views_query(dbtable: &str, query_ids: &Vec<String>) -> (res: String)
    ensures
        res@ == views_query_text(dbtable@, string_models(query_ids@)),
{
    let columns = view_columns();
    let mut res = String::from_str("SELECT ");
    res.append(join_strings(&columns, ", ").as_str());
    res.append("\n                FROM ");
    res.append(dbtable);
    res.append(
        "\n                WHERE\n                    // TODO: extract from the query\n                    event_date >= yesterday() AND\n                    initial_query_id IN ('",
    );
    res.append(join_strings(query_ids, "','").as_str());
    res.append("')\n                ORDER BY view_duration_ms DESC\n                ");
    res
}

} // verus!

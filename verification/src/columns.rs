//! The columns of the processes table: which, in what order, how wide.
use vstd::prelude::*;

use crate::process::QueryProcessesColumn;

verus! {

/// The direction in which the table sorts its rows.
#[derive(Copy, Clone, Debug, PartialEq, Eq, Structural)]
pub enum SortOrder {
    Ascending,
    Descending,
}

/// A column of the table, with its title and its width (`None`: the column
/// takes the room that is left).
pub struct TableColumn {
    pub column: QueryProcessesColumn,
    pub title: String,
    pub width: Option<usize>,
}

/// What a `TableColumn` holds: the column, its title, its width.
pub open spec fn column_model(c: TableColumn) -> (QueryProcessesColumn, Seq<char>, Option<usize>) {
    (c.column, c.title@, c.width)
}

/// The columns that every table has.
pub open spec fn base_columns() -> Seq<(QueryProcessesColumn, Seq<char>, Option<usize>)> {
    seq![
        (QueryProcessesColumn::QueryId, "query_id"@, Some(12usize)),
        (QueryProcessesColumn::Cpu, "cpu"@, Some(8usize)),
        (QueryProcessesColumn::User, "user"@, Some(8usize)),
        (QueryProcessesColumn::Threads, "thr"@, Some(6usize)),
        (QueryProcessesColumn::Memory, "mem"@, Some(6usize)),
        (QueryProcessesColumn::DiskIO, "disk"@, Some(7usize)),
        (QueryProcessesColumn::NetIO, "net"@, Some(6usize)),
        (QueryProcessesColumn::Elapsed, "elapsed"@, Some(11usize)),
        (QueryProcessesColumn::Query, "query"@, None),
    ]
}

/// The columns of the table: the host first when the server is a cluster,
/// then the number of subqueries unless subqueries are turned off, then the
/// columns that every table has.
pub open spec fn column_layout(no_subqueries: bool, has_cluster: bool) -> Seq<
    (QueryProcessesColumn, Seq<char>, Option<usize>),
> {
    let with_subqueries = if no_subqueries {
        base_columns()
    } else {
        seq![(QueryProcessesColumn::SubQueries, "Q#"@, Some(5usize))] + base_columns()
    };
    if has_cluster {
        seq![(QueryProcessesColumn::HostName, "host"@, Some(8usize))] + with_subqueries
    } else {
        with_subqueries
    }
}

/// The table's columns: the host first exactly on a cluster, then the
/// number of subqueries exactly when subqueries are on, then query id, cpu,
/// user, threads, memory, disk, network, elapsed time, and the query last,
/// which alone has no fixed width.
pub proof fn lemma_column_layout(no_subqueries: bool, has_cluster: bool)
    ensures
        ({
            let l = column_layout(no_subqueries, has_cluster);
            let h: int = if has_cluster { 1 } else { 0 };
            let k: int = h + if no_subqueries { 0int } else { 1int };
            &&& l.len() == k + 9
            &&& has_cluster ==> l[0] == (QueryProcessesColumn::HostName, "host"@, Some(8usize))
            &&& !no_subqueries ==> l[h] == (QueryProcessesColumn::SubQueries, "Q#"@, Some(5usize))
            &&& l[k] == (QueryProcessesColumn::QueryId, "query_id"@, Some(12usize))
            &&& l[k + 1] == (QueryProcessesColumn::Cpu, "cpu"@, Some(8usize))
            &&& l[k + 2] == (QueryProcessesColumn::User, "user"@, Some(8usize))
            &&& l[k + 3] == (QueryProcessesColumn::Threads, "thr"@, Some(6usize))
            &&& l[k + 4] == (QueryProcessesColumn::Memory, "mem"@, Some(6usize))
            &&& l[k + 5] == (QueryProcessesColumn::DiskIO, "disk"@, Some(7usize))
            &&& l[k + 6] == (QueryProcessesColumn::NetIO, "net"@, Some(6usize))
            &&& l[k + 7] == (QueryProcessesColumn::Elapsed, "elapsed"@, Some(11usize))
            &&& l[k + 8] == (QueryProcessesColumn::Query, "query"@, None::<usize>)
        }),
{
}

/// A column with its title and width.
fn make_column(column: QueryProcessesColumn, title: &str, width: Option<usize>) -> (res: TableColumn)
    ensures
        column_model(res) == (column, title@, width),
{
    TableColumn { column, title: String::from_str(title), width }
}

/// The columns of the table (see `column_layout`).
pub fn table_columns(no_subqueries: bool, has_cluster: bool) -> (res: Vec<TableColumn>)
    ensures
        res@.map_values(|c: TableColumn| column_model(c)) == column_layout(no_subqueries, has_cluster),
{
    let mut res: Vec<TableColumn> = Vec::new();
    if has_cluster {
        res.push(make_column(QueryProcessesColumn::HostName, "host", Some(8)));
    }
    if !no_subqueries {
        res.push(make_column(QueryProcessesColumn::SubQueries, "Q#", Some(5)));
    }
    res.push(make_column(QueryProcessesColumn::QueryId, "query_id", Some(12)));
    res.push(make_column(QueryProcessesColumn::Cpu, "cpu", Some(8)));
    res.push(make_column(QueryProcessesColumn::User, "user", Some(8)));
    res.push(make_column(QueryProcessesColumn::Threads, "thr", Some(6)));
    res.push(make_column(QueryProcessesColumn::Memory, "mem", Some(6)));
    res.push(make_column(QueryProcessesColumn::DiskIO, "disk", Some(7)));
    res.push(make_column(QueryProcessesColumn::NetIO, "net", Some(6)));
    res.push(make_column(QueryProcessesColumn::Elapsed, "elapsed", Some(11)));
    res.push(make_column(QueryProcessesColumn::Query, "query", None));
    assert(res@.map_values(|c: TableColumn| column_model(c)) =~= column_layout(no_subqueries, has_cluster));
    res
}

} // verus!

//! One running query as the table shows it, and the row of
//! `system.processes` that it is read from.
use std::collections::HashMap;
use vstd::prelude::*;

use crate::text::{binary_abbreviated_size, decimal, format_size, decimal_text};

verus! {

/// The columns of the processes table.
#[derive(Copy, Clone, Debug, PartialEq, Eq, Structural, Hash)]
pub enum QueryProcessesColumn {
    HostName,
    SubQueries,
    Cpu,
    User,
    Threads,
    Memory,
    DiskIO,
    NetIO,
    Elapsed,
    QueryId,
    Query,
}

/// One row of `system.processes`, as the server sends it.
///
/// Floating-point values are carried by their bit pattern (`f64::to_bits`).
pub struct ProcessRow {
    pub host_name: String,
    pub user: String,
    pub thread_ids: Vec<u64>,
    pub peak_memory_usage: i64,
    pub elapsed_bits: u64,
    pub subqueries: u64,
    pub is_initial_query: u8,
    pub initial_query_id: String,
    pub query_id: String,
    pub normalized_query: String,
    pub original_query: String,
    pub profile_events: HashMap<String, u64>,
}

/// What a `ProcessRow` holds, as mathematical values.
pub struct RowModel {
    pub host_name: Seq<char>,
    pub user: Seq<char>,
    pub thread_ids: Seq<u64>,
    pub peak_memory_usage: i64,
    pub elapsed_bits: u64,
    pub subqueries: u64,
    pub is_initial_query: u8,
    pub initial_query_id: Seq<char>,
    pub query_id: Seq<char>,
    pub normalized_query: Seq<char>,
    pub original_query: Seq<char>,
    pub profile_events: Map<String, u64>,
}

impl View for ProcessRow {
    type V = RowModel;

    open spec fn view(&self) -> RowModel {
        RowModel {
            host_name: self.host_name@,
            user: self.user@,
            thread_ids: self.thread_ids@,
            peak_memory_usage: self.peak_memory_usage,
            elapsed_bits: self.elapsed_bits,
            subqueries: self.subqueries,
            is_initial_query: self.is_initial_query,
            initial_query_id: self.initial_query_id@,
            query_id: self.query_id@,
            normalized_query: self.normalized_query@,
            original_query: self.original_query@,
            profile_events: self.profile_events@,
        }
    }
}

/// A running query: what the server reported last, and what it reported the
/// time before (if the query was seen then), from which rates are derived.
///
/// Floating-point values are carried by their bit pattern (`f64::to_bits`).
pub struct QueryProcess {
    pub host_name: String,
    pub user: String,
    pub threads: usize,
    pub memory: i64,
    pub elapsed_bits: u64,
    pub subqueries: u64,
    pub is_initial_query: bool,
    pub initial_query_id: String,
    pub query_id: String,
    pub normalized_query: String,
    pub original_query: String,
    pub profile_events: HashMap<String, u64>,
    pub prev_elapsed_bits: Option<u64>,
    pub prev_profile_events: Option<HashMap<String, u64>>,
}

/// What a `QueryProcess` holds, as mathematical values.
pub struct ProcessModel {
    pub host_name: Seq<char>,
    pub user: Seq<char>,
    pub threads: usize,
    pub memory: i64,
    pub elapsed_bits: u64,
    pub subqueries: u64,
    pub is_initial_query: bool,
    pub initial_query_id: Seq<char>,
    pub query_id: Seq<char>,
    pub normalized_query: Seq<char>,
    pub original_query: Seq<char>,
    pub profile_events: Map<String, u64>,
    pub prev_elapsed_bits: Option<u64>,
    pub prev_profile_events: Option<Map<String, u64>>,
}

/// The view of optional profile events.
pub open spec fn events_model(events: Option<HashMap<String, u64>>) -> Option<Map<String, u64>> {
    match events {
        Some(m) => Some(m@),
        None => None,
    }
}

impl View for QueryProcess {
    type V = ProcessModel;

    open spec fn view(&self) -> ProcessModel {
        ProcessModel {
            host_name: self.host_name@,
            user: self.user@,
            threads: self.threads,
            memory: self.memory,
            elapsed_bits: self.elapsed_bits,
            subqueries: self.subqueries,
            is_initial_query: self.is_initial_query,
            initial_query_id: self.initial_query_id@,
            query_id: self.query_id@,
            normalized_query: self.normalized_query@,
            original_query: self.original_query@,
            profile_events: self.profile_events@,
            prev_elapsed_bits: self.prev_elapsed_bits,
            prev_profile_events: events_model(self.prev_profile_events),
        }
    }
}

/// The process that a row describes: the thread count is the number of thread
/// ids, the query is initial when the flag is 1, and the previous elapsed time
/// and profile events are those of `prev`, the process that the view held
/// under the same query id, if any.
pub open spec fn process_from_row(row: RowModel, prev: Option<ProcessModel>) -> ProcessModel {
    ProcessModel {
        host_name: row.host_name,
        user: row.user,
        threads: row.thread_ids.len() as usize,
        memory: row.peak_memory_usage,
        elapsed_bits: row.elapsed_bits,
        subqueries: row.subqueries,
        is_initial_query: row.is_initial_query == 1,
        initial_query_id: row.initial_query_id,
        query_id: row.query_id,
        normalized_query: row.normalized_query,
        original_query: row.original_query,
        profile_events: row.profile_events,
        prev_elapsed_bits: match prev {
            Some(p) => Some(p.elapsed_bits),
            None => None,
        },
        prev_profile_events: match prev {
            Some(p) => Some(p.profile_events),
            None => None,
        },
    }
}

impl Clone for QueryProcess {
    fn clone(&self) -> (res: Self)
        ensures
            res@ == self@,
    {
        QueryProcess {
            host_name: self.host_name.clone(),
            user: self.user.clone(),
            threads: self.threads,
            memory: self.memory,
            elapsed_bits: self.elapsed_bits,
            subqueries: self.subqueries,
            is_initial_query: self.is_initial_query,
            initial_query_id: self.initial_query_id.clone(),
            query_id: self.query_id.clone(),
            normalized_query: self.normalized_query.clone(),
            original_query: self.original_query.clone(),
            profile_events: self.profile_events.clone(),
            prev_elapsed_bits: self.prev_elapsed_bits,
            prev_profile_events: match &self.prev_profile_events {
                Some(m) => Some(m.clone()),
                None => None,
            },
        }
    }
}

impl QueryProcess {
    /// Builds the process that `row` describes, taking the previous elapsed
    /// time and profile events from `prev`.
    pub fn from_row(row: ProcessRow, prev: Option<&QueryProcess>) -> (res: QueryProcess)
        ensures
            res@ == process_from_row(
                row@,
                match prev {
                    Some(p) => Some(p@),
                    None => None,
                },
            ),
    {
        let (prev_elapsed_bits, prev_profile_events) = match prev {
            Some(p) => (Some(p.elapsed_bits), Some(p.profile_events.clone())),
            None => (None, None),
        };
        QueryProcess {
            host_name: row.host_name,
            user: row.user,
            threads: row.thread_ids.len(),
            memory: row.peak_memory_usage,
            elapsed_bits: row.elapsed_bits,
            subqueries: row.subqueries,
            is_initial_query: row.is_initial_query == 1,
            initial_query_id: row.initial_query_id,
            query_id: row.query_id,
            normalized_query: row.normalized_query,
            original_query: row.original_query,
            profile_events: row.profile_events,
            prev_elapsed_bits,
            prev_profile_events,
        }
    }
}

/// Two processes are the same table item when they have the same query id.
impl PartialEq for QueryProcess {
    fn eq(&self, other: &QueryProcess) -> (res: bool) {
        self.query_id == other.query_id
    }
}

impl vstd::std_specs::cmp::PartialEqSpecImpl for QueryProcess {
    open spec fn obeys_eq_spec() -> bool {
        true
    }

    open spec fn eq_spec(&self, other: &QueryProcess) -> bool {
        self.query_id@ == other.query_id@
    }
}

/// The text of a column for a process, or `None` for the columns whose text
/// is printed from floating-point values (cpu, disk and network rates, elapsed
/// time), which this library does not compute.
pub open spec fn column_text(p: ProcessModel, column: QueryProcessesColumn) -> Option<Seq<char>> {
    match column {
        QueryProcessesColumn::HostName => Some(p.host_name),
        QueryProcessesColumn::SubQueries => Some(
            if p.is_initial_query {
                decimal(p.subqueries as nat)
            } else {
                seq!['1']
            },
        ),
        QueryProcessesColumn::Cpu => None,
        QueryProcessesColumn::User => Some(p.user),
        QueryProcessesColumn::Threads => Some(decimal(p.threads as nat)),
        QueryProcessesColumn::Memory => Some(binary_abbreviated_size(p.memory)),
        QueryProcessesColumn::DiskIO => None,
        QueryProcessesColumn::NetIO => None,
        QueryProcessesColumn::Elapsed => None,
        QueryProcessesColumn::QueryId => Some(
            if p.subqueries > 1 && p.is_initial_query {
                seq!['-', '>', ' '] + p.query_id
            } else {
                p.query_id
            },
        ),
        QueryProcessesColumn::Query => Some(p.normalized_query),
    }
}

/// What each column shows for a process: its host, user, normalized query;
/// its thread count and (for an initial query) its number of subqueries in
/// decimal, and "1" for a subquery; its peak memory in binary units; its
/// query id, marked with "-> " only for an initial query with more than one
/// subquery. The float columns have no text here.
pub proof fn lemma_column_text(p: ProcessModel)
    ensures
        column_text(p, QueryProcessesColumn::HostName) == Some(p.host_name),
        column_text(p, QueryProcessesColumn::User) == Some(p.user),
        column_text(p, QueryProcessesColumn::Query) == Some(p.normalized_query),
        column_text(p, QueryProcessesColumn::Threads) == Some(decimal(p.threads as nat)),
        column_text(p, QueryProcessesColumn::Memory) == Some(binary_abbreviated_size(p.memory)),
        p.is_initial_query ==> column_text(p, QueryProcessesColumn::SubQueries) == Some(
            decimal(p.subqueries as nat),
        ),
        !p.is_initial_query ==> column_text(p, QueryProcessesColumn::SubQueries) == Some(seq!['1']),
        !(p.is_initial_query && p.subqueries > 1) ==> column_text(p, QueryProcessesColumn::QueryId)
            == Some(p.query_id),
        p.is_initial_query && p.subqueries > 1 ==> column_text(p, QueryProcessesColumn::QueryId)
            == Some(seq!['-', '>', ' '] + p.query_id),
        column_text(p, QueryProcessesColumn::Cpu) is None,
        column_text(p, QueryProcessesColumn::DiskIO) is None,
        column_text(p, QueryProcessesColumn::NetIO) is None,
        column_text(p, QueryProcessesColumn::Elapsed) is None,
{
}

/// The process a row describes holds the row's values: the thread count is
/// the number of thread ids, the query is initial when the flag is 1, and the
/// previous elapsed time and profile events are those of `prev`, if any.
pub proof fn lemma_process_from_row(row: RowModel, prev: Option<ProcessModel>)
    ensures
        ({
            let p = process_from_row(row, prev);
            &&& p.query_id == row.query_id
            &&& p.host_name == row.host_name
            &&& p.user == row.user
            &&& p.threads == row.thread_ids.len() as usize
            &&& p.memory == row.peak_memory_usage
            &&& p.elapsed_bits == row.elapsed_bits
            &&& p.subqueries == row.subqueries
            &&& p.is_initial_query == (row.is_initial_query == 1)
            &&& p.initial_query_id == row.initial_query_id
            &&& p.normalized_query == row.normalized_query
            &&& p.original_query == row.original_query
            &&& p.profile_events == row.profile_events
            &&& p.prev_elapsed_bits == (if prev is Some {
                Some(prev->0.elapsed_bits)
            } else {
                None
            })
            &&& p.prev_profile_events == (if prev is Some {
                Some(prev->0.profile_events)
            } else {
                None
            })
        }),
{
}

/// The key by which a column orders processes.
pub enum SortKey {
    Text(Seq<char>),
    Number(int),
    /// The column is ordered by a floating-point rate that this library does
    /// not compute.
    Unordered,
}

/// Where a float lies in IEEE 754 total order (the order of `f64::total_cmp`),
/// given its bit pattern: non-negative values by increasing bit pattern,
/// values with the sign bit by decreasing bit pattern, all below the former.
pub open spec fn float_order_key(bits: u64) -> int {
    if bits < 0x8000_0000_0000_0000 {
        bits as int
    } else {
        0x7FFF_FFFF_FFFF_FFFF - bits
    }
}

/// The key by which `column` orders `p`.
pub open spec fn sort_key(p: ProcessModel, column: QueryProcessesColumn) -> SortKey {
    match column {
        QueryProcessesColumn::HostName => SortKey::Text(p.host_name),
        QueryProcessesColumn::SubQueries => SortKey::Number(p.subqueries as int),
        QueryProcessesColumn::Cpu => SortKey::Unordered,
        QueryProcessesColumn::User => SortKey::Text(p.user),
        QueryProcessesColumn::Threads => SortKey::Number(p.threads as int),
        QueryProcessesColumn::Memory => SortKey::Number(p.memory as int),
        QueryProcessesColumn::DiskIO => SortKey::Unordered,
        QueryProcessesColumn::NetIO => SortKey::Unordered,
        QueryProcessesColumn::Elapsed => SortKey::Number(float_order_key(p.elapsed_bits)),
        QueryProcessesColumn::QueryId => SortKey::Text(p.query_id),
        QueryProcessesColumn::Query => SortKey::Text(p.normalized_query),
    }
}

impl QueryProcess {
    /// The text that the table shows for this process in `column`; `None` for
    /// the columns printed from floating-point values.
    pub fn to_column(&self, column: QueryProcessesColumn) -> (res: Option<String>)
        ensures
            match res {
                Some(s) => column_text(self@, column) == Some(s@),
                None => column_text(self@, column) is None,
            },
    {
        match column {
            QueryProcessesColumn::HostName => Some(self.host_name.clone()),
            QueryProcessesColumn::SubQueries => {
                if self.is_initial_query {
                    Some(decimal_text(self.subqueries))
                } else {
                    let one = String::from_str("1");
                    proof {
                        reveal_strlit("1");
                    }
                    Some(one)
                }
            },
            QueryProcessesColumn::Cpu => None,
            QueryProcessesColumn::User => Some(self.user.clone()),
            QueryProcessesColumn::Threads => Some(decimal_text(self.threads as u64)),
            QueryProcessesColumn::Memory => Some(format_size(self.memory)),
            QueryProcessesColumn::DiskIO => None,
            QueryProcessesColumn::NetIO => None,
            QueryProcessesColumn::Elapsed => None,
            QueryProcessesColumn::QueryId => {
                if self.subqueries > 1 && self.is_initial_query {
                    let mut text = String::from_str("-> ");
                    proof {
                        reveal_strlit("-> ");
                    }
                    text.append(self.query_id.as_str());
                    Some(text)
                } else {
                    Some(self.query_id.clone())
                }
            },
            QueryProcessesColumn::Query => Some(self.normalized_query.clone()),
        }
    }
}

} // verus!

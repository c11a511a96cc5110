//! The state of the processes view: the running queries by query id, the
//! filter that the user chose, and the rows that the table was given.
use vstd::prelude::*;

use crate::columns::{column_layout, column_model, table_columns, SortOrder, TableColumn};
use crate::process::{
    process_from_row, ProcessModel, ProcessRow, QueryProcess, QueryProcessesColumn, RowModel,
};

verus! {

/// The kinds of flamegraph that can be asked for.
#[derive(Copy, Clone, Debug, PartialEq, Eq, Structural)]
pub enum TraceType {
    CPU,
    Real,
    Memory,
}

/// The requests that the view sends to the worker that talks to the server.
#[derive(Clone)]
pub enum WorkerEvent {
    ShowQueryFlameGraph(TraceType, Vec<String>),
    ShowLiveQueryFlameGraph(Vec<String>),
    ExplainPlan(String),
    ExplainPipeline(String),
    KillQuery(String),
}

/// What a `WorkerEvent` holds, as mathematical values.
pub enum Request {
    ShowQueryFlameGraph(TraceType, Seq<Seq<char>>),
    ShowLiveQueryFlameGraph(Seq<Seq<char>>),
    ExplainPlan(Seq<char>),
    ExplainPipeline(Seq<char>),
    KillQuery(Seq<char>),
}

impl View for WorkerEvent {
    type V = Request;

    open spec fn view(&self) -> Request {
        match self {
            WorkerEvent::ShowQueryFlameGraph(t, ids) => Request::ShowQueryFlameGraph(*t, string_models(ids@)),
            WorkerEvent::ShowLiveQueryFlameGraph(ids) => Request::ShowLiveQueryFlameGraph(string_models(ids@)),
            WorkerEvent::ExplainPlan(q) => Request::ExplainPlan(q@),
            WorkerEvent::ExplainPipeline(q) => Request::ExplainPipeline(q@),
            WorkerEvent::KillQuery(id) => Request::KillQuery(id@),
        }
    }
}

/// The options of the view that its logic reads.
#[derive(Copy, Clone)]
pub struct ViewOptions {
    /// Show only initial queries when no query id is chosen.
    pub group_by: bool,
    /// Do not gather the subqueries of a query for its flamegraph and logs.
    pub no_subqueries: bool,
}

/// The processes of a sequence, keyed by query id; a later process wins.
pub open spec fn process_map(s: Seq<ProcessModel>) -> Map<Seq<char>, ProcessModel>
    decreases s.len(),
{
    if s.len() == 0 {
        Map::empty()
    } else {
        process_map(s.drop_last()).insert(s.last().query_id, s.last())
    }
}

/// No two processes of `s` have the same query id.
pub open spec fn ids_distinct(s: Seq<ProcessModel>) -> bool {
    forall|i: int, j: int| 0 <= i < j < s.len() ==> s[i].query_id != s[j].query_id
}

/// The process that `m` holds under `id`, if any.
pub open spec fn lookup(m: Map<Seq<char>, ProcessModel>, id: Seq<char>) -> Option<ProcessModel> {
    if m.dom().contains(id) {
        Some(m[id])
    } else {
        None
    }
}

/// The processes after an update with `rows`, when the view held `prev`:
/// each row in turn is stored under its query id, replacing what an earlier
/// row stored there, and carries the elapsed time and profile events that
/// `prev` held under that id.
pub open spec fn updated_items(rows: Seq<RowModel>, prev: Map<Seq<char>, ProcessModel>) -> Map<
    Seq<char>,
    ProcessModel,
>
    decreases rows.len(),
{
    if rows.len() == 0 {
        Map::empty()
    } else {
        let row = rows.last();
        updated_items(rows.drop_last(), prev).insert(
            row.query_id,
            process_from_row(row, lookup(prev, row.query_id)),
        )
    }
}

/// Whether the table shows `p`: with a chosen query id, the queries whose
/// initial query is that one; otherwise every query, or only the initial
/// ones when grouping.
pub open spec fn is_shown(filter: Option<Seq<char>>, options: ViewOptions, p: ProcessModel) -> bool {
    match filter {
        Some(id) => p.initial_query_id == id,
        None => !(options.group_by && !p.is_initial_query),
    }
}

/// The processes of `s` that the table shows, in the order of `s`.
pub open spec fn shown_processes(s: Seq<ProcessModel>, filter: Option<Seq<char>>, options: ViewOptions) -> Seq<
    ProcessModel,
>
    decreases s.len(),
{
    if s.len() == 0 {
        Seq::empty()
    } else {
        let rest = shown_processes(s.drop_last(), filter, options);
        if is_shown(filter, options, s.last()) {
            rest.push(s.last())
        } else {
            rest
        }
    }
}

/// The query ids of the processes of `s` whose initial query is `id`, in the
/// order of `s`.
pub open spec fn subquery_ids(s: Seq<ProcessModel>, id: Seq<char>) -> Seq<Seq<char>>
    decreases s.len(),
{
    if s.len() == 0 {
        Seq::empty()
    } else {
        let rest = subquery_ids(s.drop_last(), id);
        if s.last().initial_query_id == id {
            rest.push(s.last().query_id)
        } else {
            rest
        }
    }
}

/// The flamegraph request for the selected query: of the given kind, or the
/// live one when no kind is given.
pub open spec fn flamegraph_request(trace_type: Option<TraceType>, ids: Seq<Seq<char>>) -> Request {
    match trace_type {
        Some(t) => Request::ShowQueryFlameGraph(t, ids),
        None => Request::ShowLiveQueryFlameGraph(ids),
    }
}

/// The title of the dialog that asks to confirm killing a query.
pub open spec fn kill_prompt(query_id: Seq<char>) -> Seq<char> {
    "Are you sure you want to KILL QUERY with query_id = "@ + query_id
}

/// The views of a sequence of processes.
pub open spec fn models(v: Seq<QueryProcess>) -> Seq<ProcessModel> {
    v.map_values(|p: QueryProcess| p@)
}

/// The views of a sequence of rows.
pub open spec fn row_models(v: Seq<ProcessRow>) -> Seq<RowModel> {
    v.map_values(|r: ProcessRow| r@)
}

/// The views of a sequence of strings.
pub open spec fn string_models(v: Seq<String>) -> Seq<Seq<char>> {
    v.map_values(|s: String| s@)
}

/// The view of an optional string.
pub open spec fn option_model(s: Option<String>) -> Option<Seq<char>> {
    match s {
        Some(x) => Some(x@),
        None => None,
    }
}

/// The processes view.
pub struct ProcessesView {
    /// The running queries, at most one per query id.
    items: Vec<QueryProcess>,
    /// The chosen initial query id: only its queries are shown.
    query_id: Option<String>,
    options: ViewOptions,
    /// The rows that the table was last given.
    table: Vec<QueryProcess>,
    /// The columns of the table, left to right.
    columns: Vec<TableColumn>,
    /// The column that the table sorts by, and in which direction.
    sort_column: QueryProcessesColumn,
    sort_order: SortOrder,
}

impl ProcessesView {
    /// The running queries, in the order the view keeps them.
    pub closed spec fn process_seq(&self) -> Seq<ProcessModel> {
        models(self.items@)
    }

    /// The running queries by query id.
    pub open spec fn processes(&self) -> Map<Seq<char>, ProcessModel> {
        process_map(self.process_seq())
    }

    /// The chosen initial query id, if any.
    pub closed spec fn filter(&self) -> Option<Seq<char>> {
        option_model(self.query_id)
    }

    /// The options of the view.
    pub closed spec fn options(&self) -> ViewOptions {
        self.options
    }

    /// The rows that the table was last given.
    pub closed spec fn table_rows(&self) -> Seq<ProcessModel> {
        models(self.table@)
    }

    /// The columns of the table, left to right: column, title, width.
    pub closed spec fn column_seq(&self) -> Seq<(QueryProcessesColumn, Seq<char>, Option<usize>)> {
        self.columns@.map_values(|c: TableColumn| column_model(c))
    }

    /// The column that the table sorts by, and in which direction.
    pub closed spec fn sorting(&self) -> (QueryProcessesColumn, SortOrder) {
        (self.sort_column, self.sort_order)
    }

    /// The view keeps one process per query id.
    #[verifier::type_invariant]
    pub open spec fn wf(&self) -> bool {
        ids_distinct(self.process_seq())
    }

    /// A view with no processes and no chosen query id; its table is empty,
    /// has the columns of `column_layout` (the host column when the server is
    /// a cluster) and sorts by elapsed time, longest first.
    pub fn new(options: ViewOptions, has_cluster: bool) -> (view: ProcessesView)
        ensures
            view.wf(),
            view.process_seq() == Seq::<ProcessModel>::empty(),
            view.filter() is None,
            view.options() == options,
            view.table_rows() == Seq::<ProcessModel>::empty(),
            view.column_seq() == column_layout(options.no_subqueries, has_cluster),
            view.sorting() == (QueryProcessesColumn::Elapsed, SortOrder::Descending),
    {
        let view = ProcessesView {
            items: Vec::new(),
            query_id: None,
            options,
            table: Vec::new(),
            columns: table_columns(options.no_subqueries, has_cluster),
            sort_column: QueryProcessesColumn::Elapsed,
            sort_order: SortOrder::Descending,
        };
        assert(view.process_seq() =~= Seq::<ProcessModel>::empty());
        assert(view.table_rows() =~= Seq::<ProcessModel>::empty());
        view
    }
}

proof fn lemma_process_map_distinct(s: Seq<ProcessModel>)
    requires
        ids_distinct(s),
    ensures
        forall|i: int|
            #![trigger s[i]]
            0 <= i < s.len() ==> process_map(s).dom().contains(s[i].query_id) && process_map(s)[s[i].query_id]
                == s[i],
        forall|id: Seq<char>|
            #[trigger] process_map(s).dom().contains(id) ==> exists|i: int|
                0 <= i < s.len() && s[i].query_id == id,
    decreases s.len(),
{
    if s.len() > 0 {
        let t = s.drop_last();
        lemma_process_map_distinct(t);
        assert forall|i: int| #![trigger s[i]] 0 <= i < s.len() implies process_map(s).dom().contains(
            s[i].query_id,
        ) && process_map(s)[s[i].query_id] == s[i] by {
            if i < s.len() - 1 {
                assert(t[i] == s[i]);
            }
        }
        assert forall|id: Seq<char>| #[trigger] process_map(s).dom().contains(id) implies exists|i: int|
            0 <= i < s.len() && s[i].query_id == id by {
            if id != s.last().query_id {
                assert(process_map(t).dom().contains(id));
                let i = choose|i: int| 0 <= i < t.len() && t[i].query_id == id;
                assert(s[i] == t[i]);
            } else {
                assert(s[s.len() - 1].query_id == id);
            }
        }
    }
}

proof fn lemma_process_map_update(s: Seq<ProcessModel>, k: int, p: ProcessModel)
    requires
        ids_distinct(s),
        0 <= k < s.len(),
        s[k].query_id == p.query_id,
    ensures
        ids_distinct(s.update(k, p)),
        process_map(s.update(k, p)) == process_map(s).insert(p.query_id, p),
    decreases s.len(),
{
    let t = s.update(k, p);
    assert(ids_distinct(t)) by {
        assert forall|i: int, j: int| 0 <= i < j < t.len() implies t[i].query_id != t[j].query_id by {
            assert(s[i].query_id != s[j].query_id);
        }
    }
    if k == s.len() - 1 {
        assert(t.drop_last() =~= s.drop_last());
        assert(process_map(t) =~= process_map(s).insert(p.query_id, p));
    } else {
        assert(t.drop_last() =~= s.drop_last().update(k, p));
        lemma_process_map_update(s.drop_last(), k, p);
        assert(s.last().query_id != p.query_id);
        assert(process_map(t) =~= process_map(s).insert(p.query_id, p));
    }
}

proof fn lemma_process_map_push(s: Seq<ProcessModel>, p: ProcessModel)
    requires
        ids_distinct(s),
        forall|i: int| 0 <= i < s.len() ==> s[i].query_id != p.query_id,
    ensures
        ids_distinct(s.push(p)),
        process_map(s.push(p)) == process_map(s).insert(p.query_id, p),
{
    assert(s.push(p).drop_last() =~= s);
}

/// The index of the process with query id `id`, if any.
fn position_of(items: &Vec<QueryProcess>, id: &String) -> (res: Option<usize>)
    ensures
        match res {
            Some(k) => k < items.len() && items@[k as int].query_id@ == id@,
            None => forall|i: int| 0 <= i < items.len() ==> items@[i].query_id@ != id@,
        },
{
    let mut i: usize = 0;
    while i < items.len()
        invariant
            i <= items.len(),
            forall|j: int| 0 <= j < i ==> items@[j].query_id@ != id@,
        decreases items.len() - i,
    {
        if items[i].query_id == *id {
            return Some(i);
        }
        i = i + 1;
    }
    None
}

impl ProcessesView {
    /// Replaces the running queries with those of `rows`, one per query id
    /// (a later row wins); each keeps the elapsed time and profile events of
    /// the query that the view held under its id, so that rates can be
    /// derived. The table is then given the rows to show (see `update_view`);
    /// the result says whether its first row is to be selected.
    pub fn update(&mut self, rows: Vec<ProcessRow>) -> (select_first: bool)
        ensures
            final(self).column_seq() == old(self).column_seq(),
            final(self).sorting() == old(self).sorting(),
            final(self).wf(),
            final(self).processes() == updated_items(row_models(rows@), old(self).processes()),
            final(self).filter() == old(self).filter(),
            final(self).options() == old(self).options(),
            final(self).table_rows() == shown_processes(
                final(self).process_seq(),
                final(self).filter(),
                final(self).options(),
            ),
            select_first == (old(self).table_rows().len() == 0),
    {
        proof {
            use_type_invariant(&*self);
        }
        let ghost prev_map = self.processes();
        let ghost all_rows = row_models(rows@);
        proof {
            lemma_process_map_distinct(self.process_seq());
        }
        let mut next: Vec<QueryProcess> = Vec::new();
        assert(process_map(models(next@)) =~= updated_items(all_rows.take(0), prev_map));
        for row in it: rows
            invariant
                self.wf(),
                prev_map == self.processes(),
                all_rows == row_models(it.seq()),
                forall|i: int|
                    #![trigger models(self.items@)[i]]
                    0 <= i < self.items.len() ==> process_map(models(self.items@)).dom().contains(
                        models(self.items@)[i].query_id,
                    ) && process_map(models(self.items@))[models(self.items@)[i].query_id] == models(
                        self.items@,
                    )[i],
                forall|id: Seq<char>|
                    #[trigger] process_map(models(self.items@)).dom().contains(id) ==> exists|i: int|
                        0 <= i < self.items.len() && models(self.items@)[i].query_id == id,
                ids_distinct(models(next@)),
                process_map(models(next@)) == updated_items(all_rows.take(it.index() as int), prev_map),
        {
            let ghost row_model = row@;
            let ghost idx = it.index();
            let prev = match position_of(&self.items, &row.query_id) {
                Some(k) => Some(&self.items[k]),
                None => None,
            };
            let ghost prev_model = match prev {
                Some(p) => Some(p@),
                None => None,
            };
            assert(prev_model == lookup(prev_map, row_model.query_id)) by {
                if prev_model is None {
                    if prev_map.dom().contains(row_model.query_id) {
                        let i = choose|i: int|
                            0 <= i < self.items.len() && models(self.items@)[i].query_id
                                == row_model.query_id;
                        assert(models(self.items@)[i] == self.items@[i]@);
                    }
                } else {
                    let k = choose|k: int| 0 <= k < self.items.len() && self.items@[k]@ == prev_model->0;
                    assert(models(self.items@)[k] == self.items@[k]@);
                }
            }
            let process = QueryProcess::from_row(row, prev);
            let ghost before = models(next@);
            assert(all_rows.take(idx + 1).drop_last() =~= all_rows.take(idx));
            assert(all_rows.take(idx + 1).last() == row_model);
            match position_of(&next, &process.query_id) {
                Some(k) => {
                    next.set(k, process);
                    proof {
                        assert(models(next@) =~= before.update(k as int, process@));
                        lemma_process_map_update(before, k as int, process@);
                    }
                },
                None => {
                    next.push(process);
                    proof {
                        assert(models(next@) =~= before.push(process@));
                        lemma_process_map_push(before, process@);
                    }
                },
            }
        }
        assert(all_rows.take(all_rows.len() as int) =~= all_rows);
        self.items = next;
        self.update_view()
    }

    /// Gives the table the processes to show (see `is_shown`), in the order
    /// the view keeps them. The result says whether the first row is to be
    /// selected, which is when the table was empty before.
    pub fn update_view(&mut self) -> (select_first: bool)
        ensures
            final(self).column_seq() == old(self).column_seq(),
            final(self).sorting() == old(self).sorting(),
            final(self).wf(),
            final(self).process_seq() == old(self).process_seq(),
            final(self).filter() == old(self).filter(),
            final(self).options() == old(self).options(),
            final(self).table_rows() == shown_processes(
                old(self).process_seq(),
                old(self).filter(),
                old(self).options(),
            ),
            select_first == (old(self).table_rows().len() == 0),
    {
        proof {
            use_type_invariant(&*self);
        }
        let select_first = self.table.len() == 0;
        let ghost all = self.process_seq();
        let ghost filter = self.filter();
        let mut rows: Vec<QueryProcess> = Vec::new();
        let mut i: usize = 0;
        assert(models(rows@) =~= shown_processes(all.take(0), filter, self.options));
        while i < self.items.len()
            invariant
                i <= self.items.len(),
                all == models(self.items@),
                filter == option_model(self.query_id),
                models(rows@) == shown_processes(all.take(i as int), filter, self.options),
            decreases self.items.len() - i,
        {
            let process = &self.items[i];
            let shown = match &self.query_id {
                Some(id) => process.initial_query_id == *id,
                None => !(self.options.group_by && !process.is_initial_query),
            };
            let ghost before = models(rows@);
            assert(all.take(i + 1).drop_last() =~= all.take(i as int));
            assert(all.take(i + 1).last() == process@);
            if shown {
                rows.push(process.clone());
                assert(models(rows@) =~= before.push(process@));
            } else {
                assert(models(rows@) =~= before);
            }
            i = i + 1;
        }
        assert(all.take(all.len() as int) =~= all);
        self.table = rows;
        select_first
    }
}


/// What an update leaves under each query id: exactly the ids of the rows
/// are present; under each, the process built from the last row with that
/// id, whose previous elapsed time and profile events are those that the
/// view held under the same id before, or none when it held none.
pub proof fn lemma_update_result(rows: Seq<RowModel>, prev: Map<Seq<char>, ProcessModel>, id: Seq<char>)
    ensures
        updated_items(rows, prev).dom().contains(id) == (exists|i: int|
            0 <= i < rows.len() && #[trigger] rows[i].query_id == id),
        updated_items(rows, prev).dom().contains(id) ==> {
            let p = updated_items(rows, prev)[id];
            &&& p.query_id == id
            &&& p.prev_elapsed_bits == (if prev.dom().contains(id) {
                Some(prev[id].elapsed_bits)
            } else {
                None
            })
            &&& p.prev_profile_events == (if prev.dom().contains(id) {
                Some(prev[id].profile_events)
            } else {
                None
            })
            &&& exists|i: int|
                0 <= i < rows.len() && #[trigger] rows[i].query_id == id && p == process_from_row(
                    rows[i],
                    lookup(prev, id),
                ) && forall|j: int| i < j < rows.len() ==> rows[j].query_id != id
        },
    decreases rows.len(),
{
    if rows.len() > 0 {
        let t = rows.drop_last();
        lemma_update_result(t, prev, id);
        let last = rows.len() - 1;
        if rows[last].query_id == id {
            assert(rows[last].query_id == id);
        } else {
            if updated_items(rows, prev).dom().contains(id) {
                let i = choose|i: int|
                    0 <= i < t.len() && #[trigger] t[i].query_id == id && updated_items(t, prev)[id]
                        == process_from_row(t[i], lookup(prev, id)) && forall|j: int|
                        i < j < t.len() ==> t[j].query_id != id;
                assert(rows[i] == t[i]);
                assert forall|j: int| i < j < rows.len() implies rows[j].query_id != id by {
                    if j < last {
                        assert(rows[j] == t[j]);
                    }
                }
            }
            if exists|i: int| 0 <= i < rows.len() && #[trigger] rows[i].query_id == id {
                let i = choose|i: int| 0 <= i < rows.len() && #[trigger] rows[i].query_id == id;
                assert(t[i].query_id == id);
            }
        }
    }
}

/// After an update, the process under each query id holds what the last row
/// with that id reported: host, user, as many threads as thread ids, peak
/// memory, elapsed time, number of subqueries, whether it is initial (the
/// flag is 1), its initial query id, its queries and profile events.
pub proof fn lemma_update_takes_last_row(rows: Seq<RowModel>, prev: Map<Seq<char>, ProcessModel>, id: Seq<char>)
    requires
        updated_items(rows, prev).dom().contains(id),
    ensures
        exists|i: int|
            #![trigger rows[i]]
            0 <= i < rows.len() && rows[i].query_id == id && (forall|j: int|
                i < j < rows.len() ==> rows[j].query_id != id) && {
                let p = updated_items(rows, prev)[id];
                let r = rows[i];
                &&& p.query_id == r.query_id
                &&& p.host_name == r.host_name
                &&& p.user == r.user
                &&& p.threads == r.thread_ids.len() as usize
                &&& p.memory == r.peak_memory_usage
                &&& p.elapsed_bits == r.elapsed_bits
                &&& p.subqueries == r.subqueries
                &&& p.is_initial_query == (r.is_initial_query == 1)
                &&& p.initial_query_id == r.initial_query_id
                &&& p.normalized_query == r.normalized_query
                &&& p.original_query == r.original_query
                &&& p.profile_events == r.profile_events
            },
{
    lemma_update_result(rows, prev, id);
    let i = choose|i: int|
        0 <= i < rows.len() && #[trigger] rows[i].query_id == id && updated_items(rows, prev)[id]
            == process_from_row(rows[i], lookup(prev, id)) && forall|j: int|
            i < j < rows.len() ==> rows[j].query_id != id;
    assert(rows[i].query_id == id);
}

/// With a chosen query id, the table shows every process whose initial query
/// is that one, the initial query itself included, whatever the grouping;
/// without one, every process, or only the initial ones when grouping.
pub proof fn lemma_filter_rule(s: Seq<ProcessModel>, filter: Option<Seq<char>>, options: ViewOptions, p: ProcessModel)
    ensures
        filter is Some ==> shown_processes(s, filter, options).contains(p) == (s.contains(p)
            && p.initial_query_id == filter->0),
        filter is None ==> shown_processes(s, filter, options).contains(p) == (s.contains(p) && (
        !options.group_by || p.is_initial_query)),
{
    lemma_shown_processes(s, filter, options);
}

/// The ids that stand for a query: the query itself first, then, unless
/// subqueries are turned off, exactly the query ids of the processes whose
/// initial query it is.
pub proof fn lemma_related_ids(view: ProcessesView, query_id: Seq<char>, x: Seq<char>)
    ensures
        view.related_ids(query_id).len() >= 1,
        view.related_ids(query_id)[0] == query_id,
        view.options().no_subqueries ==> view.related_ids(query_id) == seq![query_id],
        !view.options().no_subqueries ==> (view.related_ids(query_id).drop_first().contains(x) == exists|
            i: int,
        |
            0 <= i < view.process_seq().len() && #[trigger] view.process_seq()[i].initial_query_id
                == query_id && view.process_seq()[i].query_id == x),
{
    let r = view.related_ids(query_id);
    if view.options().no_subqueries {
        assert(r =~= seq![query_id]);
    } else {
        assert(r.drop_first() =~= subquery_ids(view.process_seq(), query_id));
        lemma_subquery_ids(view.process_seq(), query_id, x);
    }
}

proof fn lemma_subquery_ids(s: Seq<ProcessModel>, id: Seq<char>, x: Seq<char>)
    ensures
        subquery_ids(s, id).contains(x) == exists|i: int|
            0 <= i < s.len() && #[trigger] s[i].initial_query_id == id && s[i].query_id == x,
    decreases s.len(),
{
    if s.len() > 0 {
        let t = s.drop_last();
        lemma_subquery_ids(t, id, x);
        let rest = subquery_ids(t, id);
        if s.last().initial_query_id == id {
            lemma_push_contains(rest, s.last().query_id, x);
        }
        if exists|i: int| 0 <= i < s.len() && #[trigger] s[i].initial_query_id == id && s[i].query_id == x {
            let i = choose|i: int| 0 <= i < s.len() && #[trigger] s[i].initial_query_id == id && s[i].query_id == x;
            if i < s.len() - 1 {
                assert(t[i] == s[i]);
            }
        }
        if exists|i: int| 0 <= i < t.len() && #[trigger] t[i].initial_query_id == id && t[i].query_id == x {
            let i = choose|i: int| 0 <= i < t.len() && #[trigger] t[i].initial_query_id == id && t[i].query_id == x;
            assert(s[i] == t[i]);
        }
    }
}

/// The table shows each process of the view that passes the filter, and
/// nothing else; it shows no query id twice.
pub proof fn lemma_shown_processes(s: Seq<ProcessModel>, filter: Option<Seq<char>>, options: ViewOptions)
    ensures
        forall|p: ProcessModel|
            #![trigger shown_processes(s, filter, options).contains(p)]
            #![trigger s.contains(p)]
            shown_processes(s, filter, options).contains(p) == (s.contains(p) && is_shown(
                filter,
                options,
                p,
            )),
        ids_distinct(s) ==> ids_distinct(shown_processes(s, filter, options)),
    decreases s.len(),
{
    if s.len() > 0 {
        let t = s.drop_last();
        let last = s.last();
        lemma_shown_processes(t, filter, options);
        let rest = shown_processes(t, filter, options);
        assert(s =~= t.push(last));
        assert forall|p: ProcessModel|
            #![trigger shown_processes(s, filter, options).contains(p)]
            #![trigger s.contains(p)]
            shown_processes(s, filter, options).contains(p) == (s.contains(p) && is_shown(
                filter,
                options,
                p,
            )) by {
            lemma_push_contains(t, last, p);
            if is_shown(filter, options, last) {
                lemma_push_contains(rest, last, p);
            }
        }
        if ids_distinct(s) {
            assert(ids_distinct(t));
            if is_shown(filter, options, last) {
                let r = rest.push(last);
                assert forall|i: int, j: int| 0 <= i < j < r.len() implies r[i].query_id
                    != r[j].query_id by {
                    if j == rest.len() {
                        assert(rest[i] == r[i]);
                        assert(rest.contains(rest[i]));
                        assert(t.contains(rest[i]));
                        let k = choose|k: int| 0 <= k < t.len() && t[k] == rest[i];
                        assert(s[k] == t[k]);
                        assert(s[t.len() as int] == last);
                    }
                }
            }
        }
    }
}

proof fn lemma_push_contains<A>(s: Seq<A>, x: A, p: A)
    ensures
        s.push(x).contains(p) == (s.contains(p) || p == x),
{
    if s.contains(p) {
        let i = choose|i: int| 0 <= i < s.len() && s[i] == p;
        assert(s.push(x)[i] == p);
    }
    if p == x {
        assert(s.push(x)[s.len() as int] == p);
    }
    if s.push(x).contains(p) && p != x {
        let i = choose|i: int| 0 <= i < s.len() + 1 && s.push(x)[i] == p;
        assert(s[i] == p);
    }
}


impl ProcessesView {
    /// The query ids that stand for `query_id` in flamegraphs, logs and
    /// profiles: the query itself, then, unless subqueries are turned off,
    /// every query of the view whose initial query it is.
    pub open spec fn related_ids(&self, query_id: Seq<char>) -> Seq<Seq<char>> {
        seq![query_id] + if self.options().no_subqueries {
            Seq::<Seq<char>>::empty()
        } else {
            subquery_ids(self.process_seq(), query_id)
        }
    }

    /// The query ids that stand for `query_id` (see `related_ids`).
    pub fn related_query_ids(&self, query_id: &String) -> (ids: Vec<String>)
        ensures
            string_models(ids@) == self.related_ids(query_id@),
    {
        let mut ids: Vec<String> = Vec::new();
        ids.push(query_id.clone());
        if !self.options.no_subqueries {
            let ghost all = self.process_seq();
            let mut i: usize = 0;
            assert(string_models(ids@) =~= seq![query_id@] + subquery_ids(all.take(0), query_id@));
            while i < self.items.len()
                invariant
                    i <= self.items.len(),
                    all == models(self.items@),
                    string_models(ids@) == seq![query_id@] + subquery_ids(all.take(i as int), query_id@),
                decreases self.items.len() - i,
            {
                let process = &self.items[i];
                let ghost before = string_models(ids@);
                assert(all.take(i + 1).drop_last() =~= all.take(i as int));
                assert(all.take(i + 1).last() == process@);
                if process.initial_query_id == *query_id {
                    ids.push(process.query_id.clone());
                    assert(string_models(ids@) =~= before.push(process.query_id@));
                    assert(seq![query_id@] + subquery_ids(all.take(i + 1), query_id@) =~= (seq![query_id@]
                        + subquery_ids(all.take(i as int), query_id@)).push(process.query_id@));
                } else {
                    assert(string_models(ids@) =~= before);
                }
                i = i + 1;
            }
            assert(all.take(all.len() as int) =~= all);
        } else {
            assert(string_models(ids@) =~= self.related_ids(query_id@));
        }
        ids
    }

    /// The flamegraph request for the selected query (nothing when no query
    /// is selected): of `trace_type`, or the live flamegraph when it is
    /// `None`, over the query ids that stand for the query.
    pub fn show_flamegraph(&self, selected: Option<&QueryProcess>, trace_type: Option<TraceType>) -> (res:
        Option<WorkerEvent>)
        ensures
            match selected {
                None => res is None,
                Some(p) => res is Some && res->0@ == flamegraph_request(
                    trace_type,
                    self.related_ids(p.query_id@),
                ),
            },
    {
        match selected {
            None => None,
            Some(process) => {
                let query_ids = self.related_query_ids(&process.query_id);
                match trace_type {
                    Some(t) => Some(WorkerEvent::ShowQueryFlameGraph(t, query_ids)),
                    None => Some(WorkerEvent::ShowLiveQueryFlameGraph(query_ids)),
                }
            },
        }
    }

    /// Drops the chosen query id, so that all queries are shown again, and
    /// gives the table its rows (see `update_view`).
    pub fn show_all_queries(&mut self) -> (select_first: bool)
        ensures
            final(self).column_seq() == old(self).column_seq(),
            final(self).sorting() == old(self).sorting(),
            final(self).wf(),
            final(self).process_seq() == old(self).process_seq(),
            final(self).filter() is None,
            final(self).options() == old(self).options(),
            final(self).table_rows() == shown_processes(old(self).process_seq(), None, old(self).options()),
            select_first == (old(self).table_rows().len() == 0),
    {
        proof {
            use_type_invariant(&*self);
        }
        self.query_id = None;
        self.update_view()
    }

    /// Chooses the query id of the selected query, so that only the queries
    /// it started (on all shards) are shown, and gives the table its rows
    /// (see `update_view`). Nothing changes when no query is selected.
    pub fn show_queries_on_shards(&mut self, selected: Option<&QueryProcess>) -> (select_first: Option<bool>)
        ensures
            final(self).wf(),
            match selected {
                None => select_first is None && *final(self) == *old(self),
                Some(p) => {
                    &&& final(self).process_seq() == old(self).process_seq()
                    &&& final(self).column_seq() == old(self).column_seq()
                    &&& final(self).sorting() == old(self).sorting()
                    &&& final(self).filter() == Some(p.query_id@)
                    &&& final(self).options() == old(self).options()
                    &&& final(self).table_rows() == shown_processes(
                        old(self).process_seq(),
                        Some(p.query_id@),
                        old(self).options(),
                    )
                    &&& select_first == Some(old(self).table_rows().len() == 0)
                },
            },
    {
        proof {
            use_type_invariant(&*self);
        }
        match selected {
            None => None,
            Some(process) => {
                self.query_id = Some(process.query_id.clone());
                Some(self.update_view())
            },
        }
    }
}

/// The request to explain the plan of the selected query (nothing when no
/// query is selected).
pub fn explain_plan(selected: Option<&QueryProcess>) -> (res: Option<WorkerEvent>)
    ensures
        match selected {
            None => res is None,
            Some(p) => res is Some && res->0@ == Request::ExplainPlan(p.original_query@),
        },
{
    match selected {
        None => None,
        Some(process) => Some(WorkerEvent::ExplainPlan(process.original_query.clone())),
    }
}

/// The request to explain the pipeline of the selected query (nothing when
/// no query is selected).
pub fn explain_pipeline(selected: Option<&QueryProcess>) -> (res: Option<WorkerEvent>)
    ensures
        match selected {
            None => res is None,
            Some(p) => res is Some && res->0@ == Request::ExplainPipeline(p.original_query@),
        },
{
    match selected {
        None => None,
        Some(process) => Some(WorkerEvent::ExplainPipeline(process.original_query.clone())),
    }
}

/// A kill that waits for the user's confirmation.
pub struct KillConfirmation {
    /// The title of the dialog that asks to confirm.
    pub prompt: String,
    /// The request to send once the kill is confirmed.
    pub event: WorkerEvent,
}

/// For the selected query (nothing when no query is selected): the title of
/// the dialog that asks to confirm the kill, and the request to send once it
/// is confirmed.
pub fn kill_query(selected: Option<&QueryProcess>) -> (res: Option<KillConfirmation>)
    ensures
        match selected {
            None => res is None,
            Some(p) => match res {
                Some(k) => k.prompt@ == kill_prompt(p.query_id@) && k.event@ == Request::KillQuery(
                    p.query_id@,
                ),
                None => false,
            },
        },
{
    match selected {
        None => None,
        Some(process) => {
            let mut title = String::from_str("Are you sure you want to KILL QUERY with query_id = ");
            title.append(process.query_id.as_str());
            Some(KillConfirmation { prompt: title, event: WorkerEvent::KillQuery(process.query_id.clone()) })
        },
    }
}


impl ProcessesView {
    /// The running queries, in the order the view keeps them.
    pub fn items(&self) -> (res: &Vec<QueryProcess>)
        ensures
            models(res@) == self.process_seq(),
    {
        &self.items
    }

    /// The rows that the table was last given.
    pub fn table(&self) -> (res: &Vec<QueryProcess>)
        ensures
            models(res@) == self.table_rows(),
    {
        &self.table
    }

    /// The columns of the table, left to right.
    pub fn columns(&self) -> (res: &Vec<TableColumn>)
        ensures
            res@.map_values(|c: TableColumn| column_model(c)) == self.column_seq(),
    {
        &self.columns
    }

    /// The column that the table sorts by, and in which direction.
    pub fn sort(&self) -> (res: (QueryProcessesColumn, SortOrder))
        ensures
            res == self.sorting(),
    {
        (self.sort_column, self.sort_order)
    }

    /// The chosen initial query id, if any.
    pub fn query_id(&self) -> (res: Option<&String>)
        ensures
            match res {
                Some(id) => self.filter() == Some(id@),
                None => self.filter() is None,
            },
    {
        match &self.query_id {
            Some(id) => Some(id),
            None => None,
        }
    }
}


/// The table shows exactly the running queries of the view that pass its
/// filter, whenever it was last given its rows with the current processes
/// and filter (as `update`, `update_view` and the filter changes leave it).
pub proof fn lemma_table_shows_filtered_processes(view: &ProcessesView, p: ProcessModel)
    requires
        view.wf(),
        view.table_rows() == shown_processes(view.process_seq(), view.filter(), view.options()),
    ensures
        view.table_rows().contains(p) == (view.processes().dom().contains(p.query_id)
            && view.processes()[p.query_id] == p && is_shown(view.filter(), view.options(), p)),
{
    let s = view.process_seq();
    lemma_shown_processes(s, view.filter(), view.options());
    lemma_process_map_distinct(s);
    if s.contains(p) {
        let i = choose|i: int| 0 <= i < s.len() && s[i] == p;
        assert(process_map(s)[s[i].query_id] == s[i]);
    }
    if process_map(s).dom().contains(p.query_id) && process_map(s)[p.query_id] == p {
        let i = choose|i: int| 0 <= i < s.len() && s[i].query_id == p.query_id;
        assert(process_map(s)[s[i].query_id] == s[i]);
        assert(s.contains(s[i]));
    }
}

} // verus!

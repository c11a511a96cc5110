//! The actions of the processes view, their keys, and what each does to the
//! view and asks of the terminal and the worker.
use vstd::prelude::*;

use crate::process::{ProcessModel, QueryProcess};
use crate::queries::{
    processor_column_names, processor_columns, processors_query, processors_query_text, view_column_names,
    view_columns, views_query, views_query_text,
};
use crate::view::{
    explain_pipeline, explain_plan, flamegraph_request, kill_prompt, kill_query, shown_processes,
    string_models, KillConfirmation, ProcessesView, Request, TraceType, WorkerEvent,
};

verus! {

/// The actions of the view.
#[derive(Copy, Clone, Debug, PartialEq, Eq, Structural)]
pub enum ViewAction {
    ShowAllQueries,
    ShowQueriesOnShards,
    QueryDetails,
    QueryProcessors,
    QueryViews,
    ShowCpuFlamegraph,
    ShowRealFlamegraph,
    ShowMemoryFlamegraph,
    ShowLiveFlamegraph,
    ExplainPlan,
    ExplainPipeline,
    KillQuery,
    ShowQueryLogs,
}

/// The key that runs an action.
pub open spec fn action_key(action: ViewAction) -> char {
    match action {
        ViewAction::ShowAllQueries => '-',
        ViewAction::ShowQueriesOnShards => '+',
        ViewAction::QueryDetails => 'D',
        ViewAction::QueryProcessors => 'P',
        ViewAction::QueryViews => 'v',
        ViewAction::ShowCpuFlamegraph => 'C',
        ViewAction::ShowRealFlamegraph => 'R',
        ViewAction::ShowMemoryFlamegraph => 'M',
        ViewAction::ShowLiveFlamegraph => 'L',
        ViewAction::ExplainPlan => 'e',
        ViewAction::ExplainPipeline => 'E',
        ViewAction::KillQuery => 'K',
        ViewAction::ShowQueryLogs => 'l',
    }
}

/// The title under which the help lists an action.
pub open spec fn action_title(action: ViewAction) -> Seq<char> {
    match action {
        ViewAction::ShowAllQueries => "Show all queries"@,
        ViewAction::ShowQueriesOnShards => "Show queries on shards"@,
        ViewAction::QueryDetails => "Query details"@,
        ViewAction::QueryProcessors => "Query processors"@,
        ViewAction::QueryViews => "Query views"@,
        ViewAction::ShowCpuFlamegraph => "Show CPU flamegraph"@,
        ViewAction::ShowRealFlamegraph => "Show Real flamegraph"@,
        ViewAction::ShowMemoryFlamegraph => "Show memory flamegraph"@,
        ViewAction::ShowLiveFlamegraph => "Show live flamegraph"@,
        ViewAction::ExplainPlan => "EXPLAIN PLAN"@,
        ViewAction::ExplainPipeline => "EXPLAIN PIPELINE"@,
        ViewAction::KillQuery => "KILL query"@,
        ViewAction::ShowQueryLogs => "Show query logs"@,
    }
}

/// The actions in the order the view registers them.
pub open spec fn action_list() -> Seq<ViewAction> {
    seq![
        ViewAction::ShowAllQueries,
        ViewAction::ShowQueriesOnShards,
        ViewAction::QueryDetails,
        ViewAction::QueryProcessors,
        ViewAction::QueryViews,
        ViewAction::ShowCpuFlamegraph,
        ViewAction::ShowRealFlamegraph,
        ViewAction::ShowMemoryFlamegraph,
        ViewAction::ShowLiveFlamegraph,
        ViewAction::ExplainPlan,
        ViewAction::ExplainPipeline,
        ViewAction::KillQuery,
        ViewAction::ShowQueryLogs,
    ]
}

impl ViewAction {
    /// The key that runs this action.
    pub fn key(&self) -> (res: char)
        ensures
            res == action_key(*self),
    {
        match self {
            ViewAction::ShowAllQueries => '-',
            ViewAction::ShowQueriesOnShards => '+',
            ViewAction::QueryDetails => 'D',
            ViewAction::QueryProcessors => 'P',
            ViewAction::QueryViews => 'v',
            ViewAction::ShowCpuFlamegraph => 'C',
            ViewAction::ShowRealFlamegraph => 'R',
            ViewAction::ShowMemoryFlamegraph => 'M',
            ViewAction::ShowLiveFlamegraph => 'L',
            ViewAction::ExplainPlan => 'e',
            ViewAction::ExplainPipeline => 'E',
            ViewAction::KillQuery => 'K',
            ViewAction::ShowQueryLogs => 'l',
        }
    }

    /// The title under which the help lists this action.
    pub fn title(&self) -> (res: String)
        ensures
            res@ == action_title(*self),
    {
        match self {
            ViewAction::ShowAllQueries => String::from_str("Show all queries"),
            ViewAction::ShowQueriesOnShards => String::from_str("Show queries on shards"),
            ViewAction::QueryDetails => String::from_str("Query details"),
            ViewAction::QueryProcessors => String::from_str("Query processors"),
            ViewAction::QueryViews => String::from_str("Query views"),
            ViewAction::ShowCpuFlamegraph => String::from_str("Show CPU flamegraph"),
            ViewAction::ShowRealFlamegraph => String::from_str("Show Real flamegraph"),
            ViewAction::ShowMemoryFlamegraph => String::from_str("Show memory flamegraph"),
            ViewAction::ShowLiveFlamegraph => String::from_str("Show live flamegraph"),
            ViewAction::ExplainPlan => String::from_str("EXPLAIN PLAN"),
            ViewAction::ExplainPipeline => String::from_str("EXPLAIN PIPELINE"),
            ViewAction::KillQuery => String::from_str("KILL query"),
            ViewAction::ShowQueryLogs => String::from_str("Show query logs"),
        }
    }
}

/// The actions in the order the view registers them.
pub fn view_actions() -> (res: Vec<ViewAction>)
    ensures
        res@ == action_list(),
{
    let res = vec![
        ViewAction::ShowAllQueries,
        ViewAction::ShowQueriesOnShards,
        ViewAction::QueryDetails,
        ViewAction::QueryProcessors,
        ViewAction::QueryViews,
        ViewAction::ShowCpuFlamegraph,
        ViewAction::ShowRealFlamegraph,
        ViewAction::ShowMemoryFlamegraph,
        ViewAction::ShowLiveFlamegraph,
        ViewAction::ExplainPlan,
        ViewAction::ExplainPipeline,
        ViewAction::KillQuery,
        ViewAction::ShowQueryLogs,
    ];
    assert(res@ =~= action_list());
    res
}

/// The action that `key` runs, if any.
pub fn action_for_key(key: char) -> (res: Option<ViewAction>)
    ensures
        match res {
            Some(action) => action_key(action) == key,
            None => forall|action: ViewAction| action_key(action) != key,
        },
{
    match key {
        '-' => Some(ViewAction::ShowAllQueries),
        '+' => Some(ViewAction::ShowQueriesOnShards),
        'D' => Some(ViewAction::QueryDetails),
        'P' => Some(ViewAction::QueryProcessors),
        'v' => Some(ViewAction::QueryViews),
        'C' => Some(ViewAction::ShowCpuFlamegraph),
        'R' => Some(ViewAction::ShowRealFlamegraph),
        'M' => Some(ViewAction::ShowMemoryFlamegraph),
        'L' => Some(ViewAction::ShowLiveFlamegraph),
        'e' => Some(ViewAction::ExplainPlan),
        'E' => Some(ViewAction::ExplainPipeline),
        'K' => Some(ViewAction::KillQuery),
        'l' => Some(ViewAction::ShowQueryLogs),
        _ => None,
    }
}

/// The action that submitting a row of the table runs: it shows the query's
/// logs, as the 'l' key does.
pub fn submit_action() -> (res: ViewAction)
    ensures
        res == ViewAction::ShowQueryLogs,
        action_key(res) == 'l',
{
    ViewAction::ShowQueryLogs
}

/// The names under which the server is asked for `system.processors_profile_log`
/// and `system.query_views_log` (on a cluster, the tables of all its replicas).
pub struct LogTables {
    pub processors_profile_log: String,
    pub query_views_log: String,
}

/// A result of a server query to show in a dialog.
pub struct QueryResult {
    /// The line above the result.
    pub heading: String,
    /// The table that is queried, which also names the result.
    pub table: String,
    /// The column the result is sorted by.
    pub sort_by: String,
    pub columns: Vec<String>,
    pub query: String,
}

/// What an action asks of the terminal and the worker.
pub enum Effect {
    /// Give the table the view's rows again (`ProcessesView::table`), and
    /// select its first row when the flag is set.
    RefreshTable(bool),
    /// Show the details of a process.
    ShowDetails(QueryProcess),
    /// Run a query and show its result.
    ShowQueryResult(QueryResult),
    /// Send a request to the worker.
    Send(WorkerEvent),
    /// Ask to confirm a kill, and send its request once confirmed.
    ConfirmKill(KillConfirmation),
    /// Show the server logs of these query ids.
    ShowLogs(Vec<String>),
}

/// What an `Effect` holds, as mathematical values.
pub enum EffectModel {
    RefreshTable(bool),
    ShowDetails(ProcessModel),
    /// Heading, table, sort column, columns, query.
    ShowQueryResult(Seq<char>, Seq<char>, Seq<char>, Seq<Seq<char>>, Seq<char>),
    Send(Request),
    /// Prompt, and the request to send once confirmed.
    ConfirmKill(Seq<char>, Request),
    ShowLogs(Seq<Seq<char>>),
}

impl View for Effect {
    type V = EffectModel;

    open spec fn view(&self) -> EffectModel {
        match self {
            Effect::RefreshTable(select_first) => EffectModel::RefreshTable(*select_first),
            Effect::ShowDetails(p) => EffectModel::ShowDetails(p@),
            Effect::ShowQueryResult(r) => EffectModel::ShowQueryResult(
                r.heading@,
                r.table@,
                r.sort_by@,
                string_models(r.columns@),
                r.query@,
            ),
            Effect::Send(e) => EffectModel::Send(e@),
            Effect::ConfirmKill(k) => EffectModel::ConfirmKill(k.prompt@, k.event@),
            Effect::ShowLogs(ids) => EffectModel::ShowLogs(string_models(ids@)),
        }
    }
}

/// The view of an optional effect.
pub open spec fn effect_model(e: Option<Effect>) -> Option<EffectModel> {
    match e {
        Some(x) => Some(x@),
        None => None,
    }
}

/// What an action that does not change the view asks for, with `selected`
/// the selected row of the table: nothing without a selection; otherwise,
/// for the query ids that stand for the selected query (`related_ids`):
/// its details; the processors or views profile query; a flamegraph of
/// CPU, real or memory time, or the live one; an EXPLAIN of the original
/// query's plan or pipeline; a confirmed kill; its logs.
pub open spec fn action_effect(
    view: ProcessesView,
    action: ViewAction,
    selected: Option<ProcessModel>,
    processors_log: Seq<char>,
    views_log: Seq<char>,
) -> Option<EffectModel> {
    match selected {
        None => None,
        Some(p) => {
            let ids = view.related_ids(p.query_id);
            match action {
                ViewAction::QueryDetails => Some(EffectModel::ShowDetails(p)),
                ViewAction::QueryProcessors => Some(
                    EffectModel::ShowQueryResult(
                        "Processors:"@,
                        "system.processors_profile_log"@,
                        "elapsed_sec"@,
                        processor_column_names(),
                        processors_query_text(processors_log, ids),
                    ),
                ),
                ViewAction::QueryViews => Some(
                    EffectModel::ShowQueryResult(
                        "Views:"@,
                        "system.query_views_log"@,
                        "view_duration_ms"@,
                        view_column_names(),
                        views_query_text(views_log, ids),
                    ),
                ),
                ViewAction::ShowCpuFlamegraph => Some(
                    EffectModel::Send(flamegraph_request(Some(TraceType::CPU), ids)),
                ),
                ViewAction::ShowRealFlamegraph => Some(
                    EffectModel::Send(flamegraph_request(Some(TraceType::Real), ids)),
                ),
                ViewAction::ShowMemoryFlamegraph => Some(
                    EffectModel::Send(flamegraph_request(Some(TraceType::Memory), ids)),
                ),
                ViewAction::ShowLiveFlamegraph => Some(EffectModel::Send(flamegraph_request(None, ids))),
                ViewAction::ExplainPlan => Some(EffectModel::Send(Request::ExplainPlan(p.original_query))),
                ViewAction::ExplainPipeline => Some(
                    EffectModel::Send(Request::ExplainPipeline(p.original_query)),
                ),
                ViewAction::KillQuery => Some(
                    EffectModel::ConfirmKill(kill_prompt(p.query_id), Request::KillQuery(p.query_id)),
                ),
                ViewAction::ShowQueryLogs => Some(EffectModel::ShowLogs(ids)),
                // the two actions that change the view are stated by `on_action`
                _ => None,
            }
        },
    }
}

/// The keys of the actions: '-' all queries, '+' queries on shards, 'D'
/// details, 'P' processors, 'v' views, 'C' CPU, 'R' real, 'M' memory and
/// 'L' live flamegraphs, 'e' EXPLAIN PLAN, 'E' EXPLAIN PIPELINE, 'K' kill,
/// 'l' logs; no two actions share a key.
pub proof fn lemma_action_keys(a: ViewAction, b: ViewAction)
    ensures
        action_key(ViewAction::ShowAllQueries) == '-',
        action_key(ViewAction::ShowQueriesOnShards) == '+',
        action_key(ViewAction::QueryDetails) == 'D',
        action_key(ViewAction::QueryProcessors) == 'P',
        action_key(ViewAction::QueryViews) == 'v',
        action_key(ViewAction::ShowCpuFlamegraph) == 'C',
        action_key(ViewAction::ShowRealFlamegraph) == 'R',
        action_key(ViewAction::ShowMemoryFlamegraph) == 'M',
        action_key(ViewAction::ShowLiveFlamegraph) == 'L',
        action_key(ViewAction::ExplainPlan) == 'e',
        action_key(ViewAction::ExplainPipeline) == 'E',
        action_key(ViewAction::KillQuery) == 'K',
        action_key(ViewAction::ShowQueryLogs) == 'l',
        action_key(a) == action_key(b) ==> a == b,
{
}

/// What an action asks for when a row is selected: the details of the
/// selected process; the processors and views profiles; flamegraphs of CPU,
/// real and memory time, or the live one; EXPLAIN of the original (not the
/// normalized) query; a kill of the selected query id, after a prompt that
/// names it; the logs; each over the selected query and, unless subqueries
/// are off, the queries it started. Without a selection nothing is asked.
pub proof fn lemma_action_effect(
    view: ProcessesView,
    action: ViewAction,
    p: ProcessModel,
    processors_log: Seq<char>,
    views_log: Seq<char>,
)
    ensures
        action_effect(view, action, None, processors_log, views_log) is None,
        ({
            let e = action_effect(view, action, Some(p), processors_log, views_log);
            let ids = view.related_ids(p.query_id);
            &&& action == ViewAction::QueryDetails ==> e == Some(EffectModel::ShowDetails(p))
            &&& action == ViewAction::ShowCpuFlamegraph ==> e == Some(
                EffectModel::Send(Request::ShowQueryFlameGraph(TraceType::CPU, ids)),
            )
            &&& action == ViewAction::ShowRealFlamegraph ==> e == Some(
                EffectModel::Send(Request::ShowQueryFlameGraph(TraceType::Real, ids)),
            )
            &&& action == ViewAction::ShowMemoryFlamegraph ==> e == Some(
                EffectModel::Send(Request::ShowQueryFlameGraph(TraceType::Memory, ids)),
            )
            &&& action == ViewAction::ShowLiveFlamegraph ==> e == Some(
                EffectModel::Send(Request::ShowLiveQueryFlameGraph(ids)),
            )
            &&& action == ViewAction::ExplainPlan ==> e == Some(
                EffectModel::Send(Request::ExplainPlan(p.original_query)),
            )
            &&& action == ViewAction::ExplainPipeline ==> e == Some(
                EffectModel::Send(Request::ExplainPipeline(p.original_query)),
            )
            &&& action == ViewAction::KillQuery ==> e == Some(
                EffectModel::ConfirmKill(
                    "Are you sure you want to KILL QUERY with query_id = "@ + p.query_id,
                    Request::KillQuery(p.query_id),
                ),
            )
            &&& action == ViewAction::ShowQueryLogs ==> e == Some(EffectModel::ShowLogs(ids))
            &&& action == ViewAction::QueryProcessors ==> e == Some(
                EffectModel::ShowQueryResult(
                    "Processors:"@,
                    "system.processors_profile_log"@,
                    "elapsed_sec"@,
                    processor_column_names(),
                    processors_query_text(processors_log, ids),
                ),
            )
            &&& action == ViewAction::QueryViews ==> e == Some(
                EffectModel::ShowQueryResult(
                    "Views:"@,
                    "system.query_views_log"@,
                    "view_duration_ms"@,
                    view_column_names(),
                    views_query_text(views_log, ids),
                ),
            )
        }),
{
}

/// The view of the selected row, if any.
pub open spec fn selected_model(selected: Option<&QueryProcess>) -> Option<ProcessModel> {
    match selected {
        Some(p) => Some(p@),
        None => None,
    }
}

impl ProcessesView {
    /// Runs `action` with `selected` the selected row of the table, if any.
    /// "Show all queries" drops the chosen query id; "Show queries on shards"
    /// chooses the selected query's id (and does nothing without a
    /// selection); both then refresh the table. Every other action leaves the
    /// view as it is and asks for `action_effect`.
    pub fn on_action(&mut self, action: ViewAction, selected: Option<&QueryProcess>, tables: &LogTables) -> (res:
        Option<Effect>)
        ensures
            final(self).wf(),
            match action {
                ViewAction::ShowAllQueries => {
                    &&& final(self).process_seq() == old(self).process_seq()
                    &&& final(self).column_seq() == old(self).column_seq()
                    &&& final(self).sorting() == old(self).sorting()
                    &&& final(self).options() == old(self).options()
                    &&& final(self).filter() is None
                    &&& final(self).table_rows() == shown_processes(old(self).process_seq(), None, old(self).options())
                    &&& effect_model(res) == Some(EffectModel::RefreshTable(old(self).table_rows().len() == 0))
                },
                ViewAction::ShowQueriesOnShards => match selected {
                    None => res is None && *final(self) == *old(self),
                    Some(p) => {
                        &&& final(self).process_seq() == old(self).process_seq()
                        &&& final(self).column_seq() == old(self).column_seq()
                        &&& final(self).sorting() == old(self).sorting()
                        &&& final(self).options() == old(self).options()
                        &&& final(self).filter() == Some(p.query_id@)
                        &&& final(self).table_rows() == shown_processes(
                            old(self).process_seq(),
                            Some(p.query_id@),
                            old(self).options(),
                        )
                        &&& effect_model(res) == Some(
                            EffectModel::RefreshTable(old(self).table_rows().len() == 0),
                        )
                    },
                },
                _ => *final(self) == *old(self) && effect_model(res) == action_effect(
                    *old(self),
                    action,
                    selected_model(selected),
                    tables.processors_profile_log@,
                    tables.query_views_log@,
                ),
            },
    {
        proof {
            use_type_invariant(&*self);
        }
        match action {
            ViewAction::ShowAllQueries => Some(Effect::RefreshTable(self.show_all_queries())),
            ViewAction::ShowQueriesOnShards => match self.show_queries_on_shards(selected) {
                Some(select_first) => Some(Effect::RefreshTable(select_first)),
                None => None,
            },
            ViewAction::ShowCpuFlamegraph => match self.show_flamegraph(selected, Some(TraceType::CPU)) {
                Some(e) => Some(Effect::Send(e)),
                None => None,
            },
            ViewAction::ShowRealFlamegraph => match self.show_flamegraph(selected, Some(TraceType::Real)) {
                Some(e) => Some(Effect::Send(e)),
                None => None,
            },
            ViewAction::ShowMemoryFlamegraph => match self.show_flamegraph(
                selected,
                Some(TraceType::Memory),
            ) {
                Some(e) => Some(Effect::Send(e)),
                None => None,
            },
            ViewAction::ShowLiveFlamegraph => match self.show_flamegraph(selected, None) {
                Some(e) => Some(Effect::Send(e)),
                None => None,
            },
            ViewAction::ExplainPlan => match explain_plan(selected) {
                Some(e) => Some(Effect::Send(e)),
                None => None,
            },
            ViewAction::ExplainPipeline => match explain_pipeline(selected) {
                Some(e) => Some(Effect::Send(e)),
                None => None,
            },
            ViewAction::KillQuery => match kill_query(selected) {
                Some(k) => Some(Effect::ConfirmKill(k)),
                None => None,
            },
            ViewAction::QueryDetails => match selected {
                Some(p) => Some(Effect::ShowDetails(p.clone())),
                None => None,
            },
            ViewAction::ShowQueryLogs => match selected {
                Some(p) => Some(Effect::ShowLogs(self.related_query_ids(&p.query_id))),
                None => None,
            },
            ViewAction::QueryProcessors => match selected {
                Some(p) => {
                    let ids = self.related_query_ids(&p.query_id);
                    Some(
                        Effect::ShowQueryResult(
                            QueryResult {
                                heading: String::from_str("Processors:"),
                                table: String::from_str("system.processors_profile_log"),
                                sort_by: String::from_str("elapsed_sec"),
                                columns: processor_columns(),
                                query: processors_query(tables.processors_profile_log.as_str(), &ids),
                            },
                        ),
                    )
                },
                None => None,
            },
            ViewAction::QueryViews => match selected {
                Some(p) => {
                    let ids = self.related_query_ids(&p.query_id);
                    Some(
                        Effect::ShowQueryResult(
                            QueryResult {
                                heading: String::from_str("Views:"),
                                table: String::from_str("system.query_views_log"),
                                sort_by: String::from_str("view_duration_ms"),
                                columns: view_columns(),
                                query: views_query(tables.query_views_log.as_str(), &ids),
                            },
                        ),
                    )
                },
                None => None,
            },
        }
    }
}

} // verus!

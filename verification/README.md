# chdig processes view

The logic of the processes view of a ClickHouse monitoring tool, verified
with Verus.

- `src/process.rs`: a running query, the `system.processes` row it is read
  from, and the text of each table column.
- `src/order.rs`: how each column orders the rows, and the law that this is
  a total order.
- `src/view.rs`: the view state (queries by id, the chosen query id, the rows
  given to the table), its update from new rows, its filters, and the
  requests it sends (flamegraphs, EXPLAIN, KILL).
- `src/actions.rs`: the view's actions, their keys and titles, and
  `on_action`, which gives each action's effect on the view and what it asks
  of the terminal and the worker.
- `src/queries.rs`: the SQL that inspects the processors and views of a query.
- `src/columns.rs`: the table's columns and sort direction.
- `src/text.rs`: decimal text and sizes in binary units (the `size` crate).
- `app/`: what stays outside the proofs: printing and ordering floating-point
  rates, dispatching keys and performing effects, and the kill
  confirmation dialog (`cursive`).

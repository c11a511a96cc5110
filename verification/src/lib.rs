//! The processes view of a ClickHouse monitoring tool: the table of running
//! queries, kept up to date from `system.processes`, with its filters, its
//! per-column text and ordering, and the requests that its key bindings make.
pub mod text;
pub mod process;
pub mod order;
pub mod view;
pub mod queries;
pub mod columns;
pub mod actions;

//! Checks the statements of a SQL report script (writes pass on temporary
//! `#tables` only; a query whose body is not a plain `SELECT` passes
//! unchecked), and validates the inputs of a report run: command line
//! arguments, input files and query filters.

pub mod app;
pub mod cli;
pub mod context;

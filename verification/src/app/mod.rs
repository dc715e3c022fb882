use vstd::prelude::*;

pub mod sql_readonly_validator;
pub mod sql_statement;

verus! {

/// How the report connects to the database.
#[derive(Debug)]
pub enum AuthType {
    /// An access token obtained from the Azure command line tools.
    AzCliToken(String),
    /// A full connection string read from a file.
    ConnectionString(String),
}

/// A query filter. A static filter binds one value to a query parameter;
/// a discrete filter runs the report once for each of its values. The value
/// types are left to the caller (strings, decimals, dates, identifiers).
#[derive(Debug)]
pub enum Filter<S, D> {
    Static { name: String, value: S },
    Discrete { name: String, values: D },
}

/// Everything a report run needs: how to connect, the query, its filters.
#[derive(Debug)]
pub struct AppContext<S, D> {
    pub auth_type: AuthType,
    pub query: String,
    pub filters: Vec<Filter<S, D>>,
}

} // verus!

use vstd::prelude::*;

use sqlparser::ast::{
    Delete, FromTable, ObjectType, SetExpr, Statement, TableFactor, TableObject, TableWithJoins,
};
use sqlparser::dialect::MsSqlDialect;
use sqlparser::parser::{Parser, ParserError};

verus! {

// The statements of a script, as the validator sees them.
//
// The SQL text is parsed by `sqlparser` with its SQL Server dialect; the
// syntax tree is then carried over into the plain values below. Only the
// parts that the validator reads are kept; object names are kept in the
// textual form that `sqlparser` prints for them.

/// The kind of object that a `DROP` statement removes.
#[derive(Debug, Clone, Copy, PartialEq, Eq)]
pub enum DropObjectType {
    Table,
    View,
    MaterializedView,
    Index,
    Schema,
    Database,
    Role,
    Sequence,
    Stage,
    Type,
    User,
}

/// The body of a query statement.
#[derive(Debug)]
pub enum QueryBody {
    /// A plain `SELECT`, with the target of its `INTO` clause, if any.
    Select { into: Option<String> },
    /// Any other query body (set operations, `VALUES`, nested queries, ...).
    Other,
}

/// The target of an `INSERT` statement.
#[derive(Debug)]
pub enum InsertTarget {
    /// `INSERT INTO name`.
    TableName(String),
    /// `INSERT INTO TABLE FUNCTION f(..)`, printed as SQL.
    TableFunction(String),
}

/// The relation of one source of a `DELETE ... FROM` clause.
#[derive(Debug)]
pub enum DeleteRelation {
    /// A table given by name, with its alias, if any.
    Table { name: String, alias: Option<String> },
    /// Any other table factor (derived tables, functions, ...).
    Other,
}

/// One source of a `DELETE ... FROM` clause, with the joins that follow it.
#[derive(Debug)]
pub struct DeleteSource {
    pub relation: DeleteRelation,
    /// The joins of this source, printed as SQL.
    pub joins: Vec<String>,
}

/// The `FROM` part of a `DELETE` statement.
#[derive(Debug)]
pub enum DeleteFrom {
    /// `DELETE FROM sources`.
    WithFromKeyword(Vec<DeleteSource>),
    /// `DELETE sources`, without the `FROM` keyword.
    WithoutKeyword(Vec<DeleteSource>),
}

/// A `DELETE` statement.
#[derive(Debug)]
pub struct DeleteStatement {
    /// The tables named between `DELETE` and `FROM` (multi-table syntax).
    pub tables: Vec<String>,
    pub from: DeleteFrom,
}

/// One statement of a script.
#[derive(Debug)]
pub enum SqlStatement {
    Query(QueryBody),
    /// `COMMENT ON ...`.
    Comment,
    CreateTable { name: String },
    Drop { object_type: DropObjectType, names: Vec<String> },
    Insert(InsertTarget),
    Delete(DeleteStatement),
    CreateIndex { table_name: String },
    /// Any other statement (procedures, updates, alterations, ...).
    Other,
}

#[verifier::external_type_specification]
#[verifier::external_body]
pub struct ExParserError(ParserError);

#[verifier::external_type_specification]
#[verifier::external_body]
pub struct ExStatement(Statement);

#[verifier::external_type_specification]
#[verifier::external_body]
pub struct ExSetExpr(SetExpr);

#[verifier::external_type_specification]
#[verifier::external_body]
pub struct ExTableObject(TableObject);

#[verifier::external_type_specification]
#[verifier::external_body]
pub struct ExDelete(Delete);

#[verifier::external_type_specification]
#[verifier::external_body]
pub struct ExTableWithJoins(TableWithJoins);

#[verifier::external_type_specification]
#[verifier::external_body]
pub struct ExObjectType(ObjectType);

/// Why `sqlparser` rejected a text: its `ParserError`, carried over one
/// variant each.
#[derive(Debug, PartialEq, Eq)]
pub enum SqlParseError {
    /// The text could not be split into tokens.
    TokenizerError(String),
    /// The tokens do not form statements of the dialect.
    ParserError(String),
    /// The statements nest deeper than the parser allows.
    RecursionLimitExceeded,
}

/// What `sqlparser` makes of the text `sql` with its SQL Server dialect:
/// the statements it reads, in order, or the error it rejects the text with.
pub uninterp spec fn mssql_statements(sql: Seq<char>) -> Result<Seq<SqlStatement>, SqlParseError>;

/// Calls `sqlparser::parser::Parser::parse_sql` with `MsSqlDialect` on `sql`
/// and carries each statement of the syntax tree over into a `SqlStatement`,
/// and an error into a `SqlParseError`. Claimed: the result is
/// `mssql_statements(sql@)`, statements and error alike. What the parser
/// accepts is not stated.
#[verifier::external_body]
pub(crate) fn parse_mssql(sql: &str) -> (res: Result<Vec<SqlStatement>, SqlParseError>)
    ensures
        match res {
            Ok(stmts) => mssql_statements(sql@) == Ok::<Seq<SqlStatement>, SqlParseError>(stmts@),
            Err(e) => mssql_statements(sql@) == Err::<Seq<SqlStatement>, SqlParseError>(e),
        },
{
    Parser::parse_sql(&MsSqlDialect {}, sql)
        .map(|v| v.into_iter().map(statement_of).collect())
        .map_err(parse_error_of)
}

/// The `SqlParseError` that carries the `sqlparser::parser::ParserError` `e`
/// over: the same variant with the same message.
pub uninterp spec fn parser_error_model(e: ParserError) -> SqlParseError;

/// Carries a `sqlparser::parser::ParserError` over, one variant each,
/// moving the message. Claimed: the result is `parser_error_model(e)`.
#[verifier::external_body]
pub(crate) fn parse_error_of(e: ParserError) -> (res: SqlParseError)
    ensures
        res == parser_error_model(e),
{
    match e {
        ParserError::TokenizerError(s) => SqlParseError::TokenizerError(s),
        ParserError::ParserError(s) => SqlParseError::ParserError(s),
        ParserError::RecursionLimitExceeded => SqlParseError::RecursionLimitExceeded,
    }
}

/// Carries one `sqlparser::ast::Statement` over, one variant each for those
/// the validator reads; object names are printed with their `Display`.
/// Claims nothing about the result.
#[verifier::external_body]
fn statement_of(s: Statement) -> SqlStatement {
    match s {
        Statement::Query(q) => SqlStatement::Query(query_body_of(*q.body)),
        Statement::Comment { .. } => SqlStatement::Comment,
        Statement::CreateTable(t) => SqlStatement::CreateTable { name: t.name.to_string() },
        Statement::Drop { object_type, names, .. } => SqlStatement::Drop {
            object_type: object_type_of(object_type),
            names: names.iter().map(|n| n.to_string()).collect(),
        },
        Statement::Insert(i) => SqlStatement::Insert(insert_target_of(i.table)),
        Statement::Delete(d) => SqlStatement::Delete(delete_of(d)),
        Statement::CreateIndex(c) => SqlStatement::CreateIndex { table_name: c.table_name.to_string() },
        _ => SqlStatement::Other,
    }
}

/// Carries a `sqlparser::ast::SetExpr` over: a `SELECT` with the printed
/// name of its `INTO` target. Claims nothing about the result.
#[verifier::external_body]
fn query_body_of(body: SetExpr) -> QueryBody {
    match body {
        SetExpr::Select(s) => QueryBody::Select { into: s.into.map(|i| i.name.to_string()) },
        _ => QueryBody::Other,
    }
}

/// Carries a `sqlparser::ast::TableObject` over, printing what it holds.
/// Claims nothing about the result.
#[verifier::external_body]
fn insert_target_of(t: TableObject) -> InsertTarget {
    match t {
        TableObject::TableName(n) => InsertTarget::TableName(n.to_string()),
        TableObject::TableFunction(f) => InsertTarget::TableFunction(f.to_string()),
    }
}

/// Carries a `sqlparser::ast::Delete` over: the printed names of its
/// tables and its `FROM` sources. Claims nothing about the result.
#[verifier::external_body]
fn delete_of(d: Delete) -> DeleteStatement {
    let tables = d.tables.iter().map(|n| n.to_string()).collect();
    let from = match d.from {
        FromTable::WithFromKeyword(l) => DeleteFrom::WithFromKeyword(l.into_iter().map(source_of).collect()),
        FromTable::WithoutKeyword(l) => DeleteFrom::WithoutKeyword(l.into_iter().map(source_of).collect()),
    };
    DeleteStatement { tables, from }
}

/// Carries a `sqlparser::ast::TableWithJoins` over: a table relation with
/// its printed name and alias, and the printed joins. Claims nothing about the
/// result.
#[verifier::external_body]
fn source_of(t: TableWithJoins) -> DeleteSource {
    let relation = match t.relation {
        TableFactor::Table { name, alias, .. } => DeleteRelation::Table {
            name: name.to_string(),
            alias: alias.map(|a| a.to_string()),
        },
        _ => DeleteRelation::Other,
    };
    DeleteSource { relation, joins: t.joins.iter().map(|j| j.to_string()).collect() }
}

/// Carries a `sqlparser::ast::ObjectType` over, one variant each.
/// Claims nothing about the result.
#[verifier::external_body]
fn object_type_of(t: ObjectType) -> DropObjectType {
    match t {
        ObjectType::Table => DropObjectType::Table,
        ObjectType::View => DropObjectType::View,
        ObjectType::MaterializedView => DropObjectType::MaterializedView,
        ObjectType::Index => DropObjectType::Index,
        ObjectType::Schema => DropObjectType::Schema,
        ObjectType::Database => DropObjectType::Database,
        ObjectType::Role => DropObjectType::Role,
        ObjectType::Sequence => DropObjectType::Sequence,
        ObjectType::Stage => DropObjectType::Stage,
        ObjectType::Type => DropObjectType::Type,
        ObjectType::User => DropObjectType::User,
    }
}

} // verus!

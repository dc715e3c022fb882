use vstd::prelude::*;

use sqlparser::parser::ParserError;

use crate::app::sql_statement::{
    mssql_statements, parse_error_of, parse_mssql, parser_error_model, DeleteFrom, DeleteRelation, DeleteStatement, DropObjectType,
    InsertTarget, QueryBody, SqlParseError, SqlStatement,
};

verus! {

/// Why a script was refused.
#[derive(Debug, PartialEq)]
pub enum ValidationError {
    CreateTableNotTemp,
    DropTableNotTemp,
    CreateIndexNotTemp,
    InsertNotTemp,
    IntoClauseNotTemp,
    DeleteNotAllowed(String),
    ParseError(SqlParseError),
    GenericError(String),
}

/// A `ValidationError` with its messages as character sequences.
pub enum ValidationErrorView {
    CreateTableNotTemp,
    DropTableNotTemp,
    CreateIndexNotTemp,
    InsertNotTemp,
    IntoClauseNotTemp,
    DeleteNotAllowed(Seq<char>),
    ParseError(SqlParseError),
    GenericError(Seq<char>),
}

impl View for ValidationError {
    type V = ValidationErrorView;

    open spec fn view(&self) -> ValidationErrorView {
        match self {
            ValidationError::CreateTableNotTemp => ValidationErrorView::CreateTableNotTemp,
            ValidationError::DropTableNotTemp => ValidationErrorView::DropTableNotTemp,
            ValidationError::CreateIndexNotTemp => ValidationErrorView::CreateIndexNotTemp,
            ValidationError::InsertNotTemp => ValidationErrorView::InsertNotTemp,
            ValidationError::IntoClauseNotTemp => ValidationErrorView::IntoClauseNotTemp,
            ValidationError::DeleteNotAllowed(m) => ValidationErrorView::DeleteNotAllowed(m@),
            ValidationError::ParseError(e) => ValidationErrorView::ParseError(*e),
            ValidationError::GenericError(m) => ValidationErrorView::GenericError(m@),
        }
    }
}

impl From<ParserError> for ValidationError {
    /// Wraps a parser error, carried over into a `SqlParseError`.
    fn from(err: ParserError) -> (res: Self)
        ensures
            res == ValidationError::ParseError(parser_error_model(err)),
    {
        ValidationError::ParseError(parse_error_of(err))
    }
}

impl vstd::std_specs::convert::FromSpecImpl<ParserError> for ValidationError {
    open spec fn obeys_from_spec() -> bool {
        true
    }

    open spec fn from_spec(err: ParserError) -> Self {
        ValidationError::ParseError(parser_error_model(err))
    }
}

/// What `sqlparser` says of an error it rejects a text with (the `Display`
/// of its `ParserError`).
pub open spec fn parse_error_text(e: SqlParseError) -> Seq<char> {
    "sql parser error: "@ + match e {
        SqlParseError::TokenizerError(s) => s@,
        SqlParseError::ParserError(s) => s@,
        SqlParseError::RecursionLimitExceeded => "recursion limit exceeded"@,
    }
}

/// The text that describes an error to a user.
pub open spec fn error_message(e: ValidationErrorView) -> Seq<char> {
    match e {
        ValidationErrorView::CreateTableNotTemp => "Only temporary tables can be created"@,
        ValidationErrorView::DropTableNotTemp => "Only temporary tables can be dropped"@,
        ValidationErrorView::CreateIndexNotTemp => "CREATE INDEX allowed only on temporary tables"@,
        ValidationErrorView::InsertNotTemp => "INSERT allowed only on temporary tables"@,
        ValidationErrorView::IntoClauseNotTemp => "SELECT INTO allowed only on temporary tables"@,
        ValidationErrorView::DeleteNotAllowed(msg) => msg,
        ValidationErrorView::GenericError(msg) => msg,
        ValidationErrorView::ParseError(e) => "SQL parse error: "@ + parse_error_text(e),
    }
}

impl SqlParseError {
    /// The text `sqlparser` gives for this error.
    pub fn message(&self) -> (m: String)
        ensures
            m@ == parse_error_text(*self),
    {
        let mut m = String::from_str("sql parser error: ");
        match self {
            SqlParseError::TokenizerError(s) => m.append(s.as_str()),
            SqlParseError::ParserError(s) => m.append(s.as_str()),
            SqlParseError::RecursionLimitExceeded => m.append("recursion limit exceeded"),
        }
        m
    }
}

impl ValidationError {
    /// The text that describes the error to a user.
    pub fn message(&self) -> (m: String)
        ensures
            m@ == error_message(self@),
    {
        match self {
            ValidationError::CreateTableNotTemp => String::from_str(
                "Only temporary tables can be created",
            ),
            ValidationError::DropTableNotTemp => String::from_str(
                "Only temporary tables can be dropped",
            ),
            ValidationError::CreateIndexNotTemp => String::from_str(
                "CREATE INDEX allowed only on temporary tables",
            ),
            ValidationError::InsertNotTemp => String::from_str(
                "INSERT allowed only on temporary tables",
            ),
            ValidationError::IntoClauseNotTemp => String::from_str(
                "SELECT INTO allowed only on temporary tables",
            ),
            ValidationError::ParseError(e) => {
                let mut m = String::from_str("SQL parse error: ");
                let t = e.message();
                m.append(t.as_str());
                m
            },
            ValidationError::DeleteNotAllowed(msg) => msg.clone(),
            ValidationError::GenericError(msg) => msg.clone(),
        }
    }
}

// ------------------------------------------------------------------------
// What is allowed
// ------------------------------------------------------------------------

/// A table name designates a temporary table when it starts with `#`.
pub open spec fn is_temp_name(name: Seq<char>) -> bool {
    name.len() > 0 && name[0] == '#'
}

pub open spec fn msg_incorrect_table_name() -> Seq<char> {
    "Incorrect table name"@
}

pub open spec fn msg_only_delete_from_temp() -> Seq<char> {
    "Syntax rejected: Only 'DELETE FROM #table' syntax is allowed."@
}

pub open spec fn msg_from_required() -> Seq<char> {
    "Syntax rejected: The 'FROM' keyword is required."@
}

pub open spec fn msg_single_source() -> Seq<char> {
    "Syntax rejected: Only a single table source is allowed."@
}

pub open spec fn msg_no_joins() -> Seq<char> {
    "Syntax rejected: Joins are not allowed."@
}

pub open spec fn msg_no_alias() -> Seq<char> {
    "Syntax rejected: Table aliases are not allowed."@
}

pub open spec fn msg_only_temp_deleted() -> Seq<char> {
    "Only temporary tables can be deleted"@
}

pub open spec fn msg_not_readonly() -> Seq<char> {
    "Query not allowed: it must be a readonly query; write operation are only allowed on temp tables; creation of procedure are not allowed"@
}

/// Whether a `DELETE` may run: `Ok(true)` when it deletes from one
/// temporary table, `Ok(false)` when it deletes from one other table
/// named plainly, and the syntax it refuses otherwise.
pub open spec fn delete_verdict(d: DeleteStatement) -> Result<bool, ValidationErrorView> {
    if d.tables@.len() != 0 {
        Err(ValidationErrorView::DeleteNotAllowed(msg_only_delete_from_temp()))
    } else {
        match d.from {
            DeleteFrom::WithoutKeyword(_) => Err(
                ValidationErrorView::DeleteNotAllowed(msg_from_required()),
            ),
            DeleteFrom::WithFromKeyword(sources) => {
                if sources@.len() != 1 {
                    Err(ValidationErrorView::DeleteNotAllowed(msg_single_source()))
                } else if sources@[0].joins@.len() != 0 {
                    Err(ValidationErrorView::DeleteNotAllowed(msg_no_joins()))
                } else {
                    match sources@[0].relation {
                        DeleteRelation::Table { name, alias } => {
                            if alias is Some {
                                Err(ValidationErrorView::DeleteNotAllowed(msg_no_alias()))
                            } else {
                                Ok(is_temp_name(name@))
                            }
                        },
                        DeleteRelation::Other => Err(
                            ValidationErrorView::DeleteNotAllowed(msg_only_delete_from_temp()),
                        ),
                    }
                }
            },
        }
    }
}

/// What the validator answers for one statement: `Ok` where the statement
/// may run, else the error that refuses it.
pub open spec fn statement_verdict(s: SqlStatement) -> Result<(), ValidationErrorView> {
    match s {
        SqlStatement::Query(QueryBody::Select { into: Some(target) }) => {
            if is_temp_name(target@) {
                Ok(())
            } else {
                Err(ValidationErrorView::IntoClauseNotTemp)
            }
        },
        SqlStatement::Query(_) => Ok(()),
        SqlStatement::Comment => Ok(()),
        SqlStatement::CreateTable { name } => {
            if is_temp_name(name@) {
                Ok(())
            } else {
                Err(ValidationErrorView::CreateTableNotTemp)
            }
        },
        SqlStatement::Drop { object_type, names } => {
            if object_type == DropObjectType::Table && names@.len() == 1 && is_temp_name(
                names@[0]@,
            ) {
                Ok(())
            } else {
                Err(ValidationErrorView::DropTableNotTemp)
            }
        },
        SqlStatement::Insert(target) => {
            if target matches InsertTarget::TableName(name) && is_temp_name(name@) {
                Ok(())
            } else {
                Err(ValidationErrorView::InsertNotTemp)
            }
        },
        SqlStatement::Delete(d) => match delete_verdict(d) {
            Ok(true) => Ok(()),
            Ok(false) => Err(ValidationErrorView::DeleteNotAllowed(msg_only_temp_deleted())),
            Err(e) => Err(e),
        },
        SqlStatement::CreateIndex { table_name } => {
            if is_temp_name(table_name@) {
                Ok(())
            } else {
                Err(ValidationErrorView::CreateIndexNotTemp)
            }
        },
        SqlStatement::Other => Err(ValidationErrorView::GenericError(msg_not_readonly())),
    }
}

/// What the validator answers for a script: the error of its first refused
/// statement, or `Ok` when every statement may run.
pub open spec fn script_verdict(stmts: Seq<SqlStatement>) -> Result<(), ValidationErrorView>
    decreases stmts.len(),
{
    if stmts.len() == 0 {
        Ok(())
    } else {
        match statement_verdict(stmts[0]) {
            Ok(()) => script_verdict(stmts.drop_first()),
            Err(e) => Err(e),
        }
    }
}

// ------------------------------------------------------------------------
// Laws
// ------------------------------------------------------------------------

/// The tables that a statement creates, fills, changes or removes, as far as
/// the statement model shows them: `Some(names)` for a write (possibly
/// through `SELECT ... INTO`), `Some` of the empty sequence for a statement
/// that writes nothing, and `None` where the model does not tell: a query
/// whose body is not a plain `SELECT` (set operations, nested queries, and
/// the `INSERT`, `UPDATE` or `DELETE` that follows a `WITH` clause all land
/// there) and statements the validator never allows.
pub open spec fn written_tables(s: SqlStatement) -> Option<Seq<Seq<char>>> {
    match s {
        SqlStatement::Query(QueryBody::Select { into: Some(target) }) => Some(seq![target@]),
        SqlStatement::Query(QueryBody::Select { into: None }) => Some(Seq::empty()),
        SqlStatement::Query(QueryBody::Other) => None,
        SqlStatement::Comment => Some(Seq::empty()),
        SqlStatement::CreateTable { name } => Some(seq![name@]),
        SqlStatement::Drop { object_type, names } => {
            if object_type == DropObjectType::Table {
                Some(names@.map_values(|n: String| n@))
            } else {
                None
            }
        },
        SqlStatement::Insert(InsertTarget::TableName(name)) => Some(seq![name@]),
        SqlStatement::Insert(InsertTarget::TableFunction(_)) => None,
        SqlStatement::Delete(d) => match d.from {
            DeleteFrom::WithFromKeyword(sources) => {
                if d.tables@.len() == 0 && sources@.len() == 1 && sources@[0].relation is Table {
                    Some(seq![sources@[0].relation->Table_name@])
                } else {
                    None
                }
            },
            DeleteFrom::WithoutKeyword(_) => None,
        },
        SqlStatement::CreateIndex { table_name } => Some(seq![table_name@]),
        SqlStatement::Other => None,
    }
}

/// A query whose body is not a plain `SELECT`. The validator lets every
/// such query run without looking into it, whatever it writes.
pub open spec fn is_unchecked_query(s: SqlStatement) -> bool {
    s matches SqlStatement::Query(QueryBody::Other)
}

/// Read-only except temporary tables, with one exception: every statement
/// that the validator lets run is either a query whose body is not a plain
/// `SELECT` (which it does not look into, so that, for instance,
/// `WITH c AS (SELECT 1) DELETE FROM users` passes), or a statement whose
/// written tables are known and all temporary (names that start with `#`).
pub proof fn law_allowed_statement_writes_only_temp_tables(s: SqlStatement)
    requires
        statement_verdict(s) is Ok,
    ensures
        is_unchecked_query(s) || (written_tables(s) matches Some(tables) && forall|i: int|
            0 <= i < tables.len() ==> is_temp_name(#[trigger] tables[i])),
{
    match s {
        SqlStatement::Drop { object_type, names } => {
            let tables = names@.map_values(|n: String| n@);
            assert(tables.len() == 1 && tables[0] == names@[0]@);
        },
        _ => {},
    }
}

/// A table name designates a temporary table exactly when its first
/// character is `#`; nothing else about the name matters.
pub proof fn law_temp_name_is_hash_prefix(name: Seq<char>)
    ensures
        is_temp_name(name) <==> (name.len() > 0 && name[0] == '#'),
        forall|rest: Seq<char>| #[trigger] is_temp_name(seq!['#'] + rest),
{
    assert forall|rest: Seq<char>| #[trigger] is_temp_name(seq!['#'] + rest) by {
        assert((seq!['#'] + rest)[0] == '#');
    }
}

/// What the validator answers for each kind of statement, stated with the
/// first character of the table name: writes (`CREATE TABLE`,
/// `CREATE INDEX`, `DROP TABLE` of one table, `INSERT INTO` a table,
/// `SELECT ... INTO`) pass exactly when the table's name starts with `#`,
/// and are refused with their own error otherwise; plain reads, other query
/// bodies and comments always pass; statements of any other kind never do.
pub proof fn law_statement_verdict_by_kind(s: SqlStatement)
    ensures
        s matches SqlStatement::CreateTable { name } ==> statement_verdict(s) == (if name@.len()
            > 0 && name@[0] == '#' {
            Ok::<(), ValidationErrorView>(())
        } else {
            Err(ValidationErrorView::CreateTableNotTemp)
        }),
        s matches SqlStatement::CreateIndex { table_name } ==> statement_verdict(s) == (
        if table_name@.len() > 0 && table_name@[0] == '#' {
            Ok::<(), ValidationErrorView>(())
        } else {
            Err(ValidationErrorView::CreateIndexNotTemp)
        }),
        s matches SqlStatement::Insert(InsertTarget::TableName(name)) ==> statement_verdict(s) == (
        if name@.len() > 0 && name@[0] == '#' {
            Ok::<(), ValidationErrorView>(())
        } else {
            Err(ValidationErrorView::InsertNotTemp)
        }),
        s matches SqlStatement::Insert(InsertTarget::TableFunction(_)) ==> statement_verdict(s)
            == Err::<(), ValidationErrorView>(ValidationErrorView::InsertNotTemp),
        s matches SqlStatement::Query(QueryBody::Select { into: Some(target) })
            ==> statement_verdict(s) == (if target@.len() > 0 && target@[0] == '#' {
            Ok::<(), ValidationErrorView>(())
        } else {
            Err(ValidationErrorView::IntoClauseNotTemp)
        }),
        s matches SqlStatement::Drop { object_type, names } ==> statement_verdict(s) == (
        if object_type == DropObjectType::Table && names@.len() == 1 && names@[0]@.len() > 0
            && names@[0]@[0] == '#' {
            Ok::<(), ValidationErrorView>(())
        } else {
            Err(ValidationErrorView::DropTableNotTemp)
        }),
        s matches SqlStatement::Query(QueryBody::Select { into: None }) ==> statement_verdict(s)
            is Ok,
        s matches SqlStatement::Query(QueryBody::Other) ==> statement_verdict(s) is Ok,
        s matches SqlStatement::Comment ==> statement_verdict(s) is Ok,
        s matches SqlStatement::Other ==> statement_verdict(s) is Err,
{
}

/// `DELETE FROM t` with no table list, one source, no join and no alias
/// passes exactly when the name of `t` starts with `#`, and is refused with
/// "Only temporary tables can be deleted" otherwise.
pub proof fn law_delete_from_single_table(d: DeleteStatement)
    requires
        d.tables@.len() == 0,
        d.from matches DeleteFrom::WithFromKeyword(sources) && sources@.len() == 1
            && sources@[0].joins@.len() == 0 && sources@[0].relation matches DeleteRelation::Table {
            alias: None,
            ..
        },
    ensures
        ({
            let name = d.from->WithFromKeyword_0@[0].relation->Table_name@;
            statement_verdict(SqlStatement::Delete(d)) == (if name.len() > 0 && name[0] == '#' {
                Ok::<(), ValidationErrorView>(())
            } else {
                Err(ValidationErrorView::DeleteNotAllowed("Only temporary tables can be deleted"@))
            })
        }),
{
}

/// A `DELETE` passes only in the form `DELETE FROM #t`: no table list, the
/// `FROM` keyword, a single source that is a table named by a name starting
/// with `#`, no join and no alias.
pub proof fn law_delete_allowed_only_in_plain_form(d: DeleteStatement)
    requires
        statement_verdict(SqlStatement::Delete(d)) is Ok,
    ensures
        d.tables@.len() == 0,
        d.from matches DeleteFrom::WithFromKeyword(sources) && sources@.len() == 1
            && sources@[0].joins@.len() == 0 && (sources@[0].relation matches DeleteRelation::Table {
            name,
            alias: None,
        } && name@.len() > 0 && name@[0] == '#'),
{
}

/// A script passes exactly when each of its statements passes.
pub proof fn law_script_allowed_iff_each_statement_allowed(stmts: Seq<SqlStatement>)
    ensures
        script_verdict(stmts) is Ok <==> forall|i: int|
            0 <= i < stmts.len() ==> #[trigger] statement_verdict(stmts[i]) is Ok,
    decreases stmts.len(),
{
    if stmts.len() > 0 {
        law_script_allowed_iff_each_statement_allowed(stmts.drop_first());
        if script_verdict(stmts) is Ok {
            assert forall|i: int| 0 <= i < stmts.len() implies #[trigger] statement_verdict(
                stmts[i],
            ) is Ok by {
                if i > 0 {
                    assert(stmts[i] == stmts.drop_first()[i - 1]);
                }
            }
        } else if statement_verdict(stmts[0]) is Ok {
            let j = choose|j: int|
                0 <= j < stmts.drop_first().len() && !(#[trigger] statement_verdict(
                    stmts.drop_first()[j],
                ) is Ok);
            assert(stmts[j + 1] == stmts.drop_first()[j]);
        }
    }
}

/// In an accepted script, every statement is either a query whose body is
/// not a plain `SELECT` (not looked into, see
/// `law_allowed_statement_writes_only_temp_tables`), or writes known tables
/// that are all temporary (names that start with `#`).
pub proof fn law_accepted_script_writes_only_temp_tables(stmts: Seq<SqlStatement>)
    requires
        script_verdict(stmts) is Ok,
    ensures
        forall|k: int|
            0 <= k < stmts.len() ==> is_unchecked_query(stmts[k]) || (
            #[trigger] written_tables(stmts[k]) matches Some(tables) && forall|i: int|
                0 <= i < tables.len() ==> is_temp_name(#[trigger] tables[i])),
{
    law_script_allowed_iff_each_statement_allowed(stmts);
    assert forall|k: int| 0 <= k < stmts.len() implies is_unchecked_query(stmts[k]) || (
    #[trigger] written_tables(stmts[k]) matches Some(tables) && forall|i: int|
        0 <= i < tables.len() ==> is_temp_name(#[trigger] tables[i])) by {
        assert(statement_verdict(stmts[k]) is Ok);
        law_allowed_statement_writes_only_temp_tables(stmts[k]);
    }
}

/// A refused script is answered with the error of its first refused
/// statement.
pub proof fn law_refusal_is_first_refused_statement(stmts: Seq<SqlStatement>)
    requires
        script_verdict(stmts) is Err,
    ensures
        exists|k: int|
            0 <= k < stmts.len() && (forall|i: int|
                0 <= i < k ==> #[trigger] statement_verdict(stmts[i]) is Ok) && statement_verdict(
                stmts[k],
            ) == script_verdict(stmts),
    decreases stmts.len(),
{
    if statement_verdict(stmts[0]) is Err {
        assert(statement_verdict(stmts[0]) == script_verdict(stmts));
    } else {
        let rest = stmts.drop_first();
        law_refusal_is_first_refused_statement(rest);
        let k = choose|k: int|
            0 <= k < rest.len() && (forall|i: int|
                0 <= i < k ==> #[trigger] statement_verdict(rest[i]) is Ok) && statement_verdict(
                rest[k],
            ) == script_verdict(rest);
        assert(stmts[k + 1] == rest[k]);
        assert forall|i: int| 0 <= i < k + 1 implies #[trigger] statement_verdict(stmts[i]) is Ok by {
            if i > 0 {
                assert(stmts[i] == rest[i - 1]);
            }
        }
    }
}

/// Two scripts run one after the other are answered as the first alone
/// where it is refused, else as the second alone.
pub proof fn law_script_concatenation(a: Seq<SqlStatement>, b: Seq<SqlStatement>)
    ensures
        script_verdict(a + b) == (if script_verdict(a) is Ok {
            script_verdict(b)
        } else {
            script_verdict(a)
        }),
    decreases a.len(),
{
    if a.len() == 0 {
        assert(a + b =~= b);
    } else {
        assert((a + b)[0] == a[0]);
        assert((a + b).drop_first() =~= a.drop_first() + b);
        law_script_concatenation(a.drop_first(), b);
    }
}

/// Whether a script passes does not depend on the order of its parts.
pub proof fn law_acceptance_ignores_order(a: Seq<SqlStatement>, b: Seq<SqlStatement>)
    ensures
        script_verdict(a + b) is Ok <==> script_verdict(b + a) is Ok,
{
    law_script_concatenation(a, b);
    law_script_concatenation(b, a);
}

// ------------------------------------------------------------------------
// Executable checks
// ------------------------------------------------------------------------

fn is_temp_table_name(name: &String) -> (res: Result<bool, ValidationError>)
    ensures
        res matches Ok(b) && b == is_temp_name(name@),
{
    let s = name.as_str();
    Ok(!s.is_empty() && s.get_char(0) == '#')
}

fn is_temp_table_name_opt(name_opt: Option<&String>) -> (res: Result<bool, ValidationError>)
    ensures
        match name_opt {
            Some(name) => res matches Ok(b) && b == is_temp_name(name@),
            None => res matches Err(e) && e@ == ValidationErrorView::GenericError(
                msg_incorrect_table_name(),
            ),
        },
{
    match name_opt {
        Some(name) => is_temp_table_name(name),
        None => Err(ValidationError::GenericError(String::from_str("Incorrect table name"))),
    }
}

fn is_query_allowed(query_body: &QueryBody) -> (res: Result<bool, ValidationError>)
    ensures
        match statement_verdict(SqlStatement::Query(*query_body)) {
            Ok(()) => res == Ok::<bool, ValidationError>(true),
            Err(e) => res matches Err(r) && r@ == e,
        },
{
    match query_body {
        QueryBody::Select { into: Some(target) } => {
            if is_temp_table_name(target)? {
                return Ok(true);
            }
            Err(ValidationError::IntoClauseNotTemp)
        },
        _ => Ok(true),
    }
}

fn is_insert_allowed(target: &InsertTarget) -> (res: Result<bool, ValidationError>)
    ensures
        res matches Ok(b) && (b <==> statement_verdict(SqlStatement::Insert(*target)) is Ok),
{
    match target {
        InsertTarget::TableName(name) => {
            if is_temp_table_name(name)? {
                return Ok(true);
            }
            Ok(false)
        },
        _ => Ok(false),
    }
}

fn is_delete_allowed(delete: &DeleteStatement) -> (res: Result<bool, ValidationError>)
    ensures
        match delete_verdict(*delete) {
            Ok(b) => res matches Ok(r) && r == b,
            Err(e) => res matches Err(r) && r@ == e,
        },
{
    if delete.tables.len() != 0 {
        return Err(
            ValidationError::DeleteNotAllowed(
                String::from_str("Syntax rejected: Only 'DELETE FROM #table' syntax is allowed."),
            ),
        );
    }
    let table_with_joins = match &delete.from {
        DeleteFrom::WithFromKeyword(list) => list,
        _ => {
            return Err(
                ValidationError::DeleteNotAllowed(
                    String::from_str("Syntax rejected: The 'FROM' keyword is required."),
                ),
            );
        },
    };
    if table_with_joins.len() != 1 {
        return Err(
            ValidationError::DeleteNotAllowed(
                String::from_str("Syntax rejected: Only a single table source is allowed."),
            ),
        );
    }
    let from = &table_with_joins[0];
    if from.joins.len() != 0 {
        return Err(
            ValidationError::DeleteNotAllowed(
                String::from_str("Syntax rejected: Joins are not allowed."),
            ),
        );
    }
    if let DeleteRelation::Table { name, alias } = &from.relation {
        if alias.is_some() {
            return Err(
                ValidationError::DeleteNotAllowed(
                    String::from_str("Syntax rejected: Table aliases are not allowed."),
                ),
            );
        }
        return is_temp_table_name(name);
    }
    Err(
        ValidationError::DeleteNotAllowed(
            String::from_str("Syntax rejected: Only 'DELETE FROM #table' syntax is allowed."),
        ),
    )
}

/// Checks one statement: `Ok` where it may run, else the error that
/// refuses it.
pub fn check_statement(statement: &SqlStatement) -> (res: Result<(), ValidationError>)
    ensures
        match statement_verdict(*statement) {
            Ok(()) => res is Ok,
            Err(e) => res matches Err(r) && r@ == e,
        },
{
    match statement {
        SqlStatement::Query(body) => {
            if is_query_allowed(body)? {
                return Ok(());
            }
            Err(ValidationError::CreateTableNotTemp)
        },
        SqlStatement::Comment => Ok(()),
        SqlStatement::CreateTable { name } => {
            if is_temp_table_name(name)? {
                return Ok(());
            }
            Err(ValidationError::CreateTableNotTemp)
        },
        SqlStatement::Drop { object_type, names } => {
            if matches!(object_type, DropObjectType::Table) && names.len() == 1
                && is_temp_table_name_opt(names.get(0))? {
                return Ok(());
            }
            Err(ValidationError::DropTableNotTemp)
        },
        SqlStatement::Insert(target) => {
            if is_insert_allowed(target)? {
                return Ok(());
            }
            Err(ValidationError::InsertNotTemp)
        },
        SqlStatement::Delete(delete) => {
            if is_delete_allowed(delete)? {
                return Ok(());
            }
            Err(
                ValidationError::DeleteNotAllowed(
                    String::from_str("Only temporary tables can be deleted"),
                ),
            )
        },
        SqlStatement::CreateIndex { table_name } => {
            if is_temp_table_name(table_name)? {
                return Ok(());
            }
            Err(ValidationError::CreateIndexNotTemp)
        },
        SqlStatement::Other => Err(
            ValidationError::GenericError(
                String::from_str(
                    "Query not allowed: it must be a readonly query; write operation are only allowed on temp tables; creation of procedure are not allowed",
                ),
            ),
        ),
    }
}

/// Checks the statements of a script in order and stops at the first one
/// that may not run.
pub fn check_statements(statements: &Vec<SqlStatement>) -> (res: Result<(), ValidationError>)
    ensures
        match script_verdict(statements@) {
            Ok(()) => res is Ok,
            Err(e) => res matches Err(r) && r@ == e,
        },
{
    let mut i: usize = 0;
    assert(statements@.skip(0) =~= statements@);
    while i < statements.len()
        invariant
            i <= statements@.len(),
            script_verdict(statements@) == script_verdict(statements@.skip(i as int)),
        decreases statements@.len() - i,
    {
        let ghost rest = statements@.skip(i as int);
        assert(rest[0] == statements@[i as int]);
        assert(rest.drop_first() =~= statements@.skip(i + 1));
        check_statement(&statements[i])?;
        i = i + 1;
    }
    assert(statements@.skip(i as int).len() == 0);
    Ok(())
}

/// Parses `sql` with the SQL Server dialect and checks each statement in
/// turn: writes must go to temporary tables (names that start with `#`);
/// queries whose body is not a plain `SELECT` pass unchecked.
pub fn validate_readonly_except_temp_tables(sql: &str) -> (res: Result<(), ValidationError>)
    ensures
        match mssql_statements(sql@) {
            Err(e) => res == Err::<(), ValidationError>(ValidationError::ParseError(e)),
            Ok(stmts) => match script_verdict(stmts) {
                Ok(()) => res is Ok,
                Err(e) => res matches Err(r) && r@ == e,
            },
        },
{
    let ast = match parse_mssql(sql) {
        Ok(ast) => ast,
        Err(err) => return Err(ValidationError::ParseError(err)),
    };
    check_statements(&ast)
}

} // verus!

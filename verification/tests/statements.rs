use sql_report::app::sql_readonly_validator::{
    check_statement, check_statements, validate_readonly_except_temp_tables, ValidationError,
};
use sql_report::app::sql_statement::{
    DeleteFrom, DeleteRelation, DeleteSource, DeleteStatement, DropObjectType, InsertTarget,
    QueryBody, SqlStatement,
};

fn delete_from(sources: Vec<DeleteSource>) -> SqlStatement {
    SqlStatement::Delete(DeleteStatement { tables: vec![], from: DeleteFrom::WithFromKeyword(sources) })
}

fn table_source(name: &str, alias: Option<&str>, joins: Vec<&str>) -> DeleteSource {
    DeleteSource {
        relation: DeleteRelation::Table { name: name.to_string(), alias: alias.map(|a| a.to_string()) },
        joins: joins.into_iter().map(|j| j.to_string()).collect(),
    }
}

fn delete_error(msg: &str) -> ValidationError {
    ValidationError::DeleteNotAllowed(msg.to_string())
}

#[test]
fn delete_from_temp_table_is_allowed() {
    assert_eq!(check_statement(&delete_from(vec![table_source("#tmp", None, vec![])])), Ok(()));
    assert_eq!(validate_readonly_except_temp_tables("DELETE FROM #tmp WHERE id = 1"), Ok(()));
}

#[test]
fn delete_from_plain_table_is_rejected() {
    let expected = delete_error("Only temporary tables can be deleted");
    assert_eq!(check_statement(&delete_from(vec![table_source("users", None, vec![])])), Err(expected));
    assert_eq!(
        validate_readonly_except_temp_tables("DELETE FROM users"),
        Err(delete_error("Only temporary tables can be deleted"))
    );
}

#[test]
fn delete_with_table_list_is_rejected() {
    let stmt = SqlStatement::Delete(DeleteStatement {
        tables: vec!["#tmp".to_string()],
        from: DeleteFrom::WithFromKeyword(vec![table_source("#tmp", None, vec![])]),
    });
    assert_eq!(
        check_statement(&stmt),
        Err(delete_error("Syntax rejected: Only 'DELETE FROM #table' syntax is allowed."))
    );
}

#[test]
fn delete_without_from_keyword_is_rejected() {
    let stmt = SqlStatement::Delete(DeleteStatement {
        tables: vec![],
        from: DeleteFrom::WithoutKeyword(vec![table_source("#tmp", None, vec![])]),
    });
    assert_eq!(check_statement(&stmt), Err(delete_error("Syntax rejected: The 'FROM' keyword is required.")));
}

#[test]
fn delete_from_two_sources_is_rejected() {
    let stmt = delete_from(vec![table_source("#a", None, vec![]), table_source("#b", None, vec![])]);
    assert_eq!(
        check_statement(&stmt),
        Err(delete_error("Syntax rejected: Only a single table source is allowed."))
    );
    assert_eq!(
        check_statement(&delete_from(vec![])),
        Err(delete_error("Syntax rejected: Only a single table source is allowed."))
    );
}

#[test]
fn delete_with_join_is_rejected() {
    let stmt = delete_from(vec![table_source("#a", None, vec!["JOIN users ON 1 = 1"])]);
    assert_eq!(check_statement(&stmt), Err(delete_error("Syntax rejected: Joins are not allowed.")));
}

#[test]
fn delete_with_alias_is_rejected() {
    let stmt = delete_from(vec![table_source("#a", Some("t"), vec![])]);
    assert_eq!(check_statement(&stmt), Err(delete_error("Syntax rejected: Table aliases are not allowed.")));
}

#[test]
fn delete_from_derived_table_is_rejected() {
    let stmt = delete_from(vec![DeleteSource { relation: DeleteRelation::Other, joins: vec![] }]);
    assert_eq!(
        check_statement(&stmt),
        Err(delete_error("Syntax rejected: Only 'DELETE FROM #table' syntax is allowed."))
    );
}

#[test]
fn update_is_rejected_with_generic_error() {
    let expected = ValidationError::GenericError(
        "Query not allowed: it must be a readonly query; write operation are only allowed on temp tables; creation of procedure are not allowed".to_string(),
    );
    assert_eq!(validate_readonly_except_temp_tables("UPDATE users SET name = 'x'"), Err(expected));
}

#[test]
fn drop_view_or_several_tables_is_rejected() {
    let view = SqlStatement::Drop { object_type: DropObjectType::View, names: vec!["#v".to_string()] };
    assert_eq!(check_statement(&view), Err(ValidationError::DropTableNotTemp));
    let two = SqlStatement::Drop {
        object_type: DropObjectType::Table,
        names: vec!["#a".to_string(), "#b".to_string()],
    };
    assert_eq!(check_statement(&two), Err(ValidationError::DropTableNotTemp));
    assert_eq!(validate_readonly_except_temp_tables("DROP TABLE #a, #b"), Err(ValidationError::DropTableNotTemp));
}

#[test]
fn insert_into_table_function_is_rejected() {
    let stmt = SqlStatement::Insert(InsertTarget::TableFunction("remote('x')".to_string()));
    assert_eq!(check_statement(&stmt), Err(ValidationError::InsertNotTemp));
}

#[test]
fn comments_and_other_query_bodies_are_allowed() {
    assert_eq!(check_statement(&SqlStatement::Comment), Ok(()));
    assert_eq!(check_statement(&SqlStatement::Query(QueryBody::Other)), Ok(()));
    assert_eq!(validate_readonly_except_temp_tables("SELECT 1 UNION SELECT 2"), Ok(()));
}

#[test]
fn empty_name_is_not_temporary() {
    let stmt = SqlStatement::CreateTable { name: String::new() };
    assert_eq!(check_statement(&stmt), Err(ValidationError::CreateTableNotTemp));
    let stmt = SqlStatement::CreateIndex { table_name: "tmp#".to_string() };
    assert_eq!(check_statement(&stmt), Err(ValidationError::CreateIndexNotTemp));
}

#[test]
fn script_is_answered_with_its_first_refusal() {
    let stmts = vec![
        SqlStatement::Query(QueryBody::Select { into: None }),
        SqlStatement::CreateTable { name: "users".to_string() },
        SqlStatement::Insert(InsertTarget::TableName("users".to_string())),
    ];
    assert_eq!(check_statements(&stmts), Err(ValidationError::CreateTableNotTemp));
    assert_eq!(
        validate_readonly_except_temp_tables("INSERT INTO users VALUES (1); CREATE TABLE users (id INT)"),
        Err(ValidationError::InsertNotTemp)
    );
}

#[test]
fn acceptance_does_not_depend_on_order() {
    let a = "CREATE TABLE #t (id INT); SELECT * FROM #t";
    let b = "SELECT * FROM #t; CREATE TABLE #t (id INT)";
    assert_eq!(validate_readonly_except_temp_tables(a), Ok(()));
    assert_eq!(validate_readonly_except_temp_tables(b), Ok(()));
    assert_eq!(check_statements(&vec![]), Ok(()));
}

#[test]
fn empty_script_is_allowed() {
    assert_eq!(validate_readonly_except_temp_tables(""), Ok(()));
}

#[test]
fn queries_that_are_not_plain_selects_are_not_looked_into() {
    assert_eq!(validate_readonly_except_temp_tables("WITH c AS (SELECT 1 AS x) DELETE FROM users"), Ok(()));
}

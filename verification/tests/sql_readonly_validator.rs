use sql_report::app::sql_readonly_validator::{validate_readonly_except_temp_tables, ValidationError};

// --- Allowed (returns Ok) ---

#[test]
fn test_select_is_allowed() {
    let result = validate_readonly_except_temp_tables("SELECT * FROM users");
    assert!(result.is_ok(), "Expected validation to succeed");
}

#[test]
fn test_select_with_join_is_allowed() {
    let sql = "SELECT u.name, o.total FROM users u JOIN orders o ON o.user_id = u.id";
    assert!(validate_readonly_except_temp_tables(sql).is_ok(), "Expected validation to succeed");
}

#[test]
fn test_create_temp_table_is_allowed() {
    let sql = "CREATE TABLE #tmp (id INT, name VARCHAR(100))";
    assert!(validate_readonly_except_temp_tables(sql).is_ok(), "Expected validation to succeed");
}

#[test]
fn test_drop_temp_table_is_allowed() {
    let sql = "DROP TABLE #tmp";
    assert!(validate_readonly_except_temp_tables(sql).is_ok(), "Expected validation to succeed");
}

#[test]
fn test_insert_into_temp_table_is_allowed() {
    let sql = "INSERT INTO #tmp (id, name) VALUES (1, 'hello')";
    assert!(validate_readonly_except_temp_tables(sql).is_ok(), "Expected validation to succeed");
}

#[test]
fn test_select_into_temp_table_is_allowed() {
    let sql = "SELECT * INTO #dest FROM users";
    assert!(validate_readonly_except_temp_tables(sql).is_ok(), "Expected validation to succeed");
}

#[test]
fn test_multiple_statements_all_allowed() {
    let sql = r#"
        CREATE TABLE #tmp (id INT);
        INSERT INTO #tmp VALUES (1);
        SELECT * FROM #tmp;
        DROP TABLE #tmp;
    "#;
    assert!(validate_readonly_except_temp_tables(sql).is_ok(), "Expected validation to succeed");
}

#[test]
fn test_create_index_on_temp_table_is_allowed() {
    let sql = "CREATE INDEX idx_tmp_id ON #tmp (id)";
    assert!(validate_readonly_except_temp_tables(sql).is_ok(), "Expected validation to succeed");
}

#[test]
fn test_create_unique_index_on_temp_table_is_allowed() {
    let sql = "CREATE UNIQUE INDEX idx_tmp_id ON #tmp (id)";
    assert!(validate_readonly_except_temp_tables(sql).is_ok(), "Expected validation to succeed");
}

// --- Rejected (returns Err with specific variant) ---

#[test]
fn test_create_index_on_non_temp_table_is_rejected() {
    let sql = "CREATE INDEX idx_users_id ON users (id)";
    let result = validate_readonly_except_temp_tables(sql);

    match result {
        Err(e) => assert_eq!(e, ValidationError::CreateIndexNotTemp),
        _ => panic!("ValidationError::CreateIndexNotTemp expected!")
    }
}

#[test]
fn test_create_stored_procedure_is_rejected() {
    let sql = "CREATE PROCEDURE sp_name AS BEGIN SELECT 1 END";
    let result = validate_readonly_except_temp_tables(sql);

    assert!(result.is_err(), "ValidationError expected!");
}

#[test]
fn test_create_index_on_temp_and_stored_procedure_returns_err() {
    let sql = r#"
        CREATE TABLE #tmp (id INT);
        CREATE INDEX idx_tmp_id ON #tmp (id);
        CREATE PROCEDURE sp_test AS BEGIN SELECT * FROM #tmp END
    "#;
    let result = validate_readonly_except_temp_tables(sql);
    
    assert!(result.is_err(), "ValidationError expected!");
}

#[test]
fn test_create_non_temp_table_is_rejected() {
    let sql = "CREATE TABLE users (id INT)";
    let result = validate_readonly_except_temp_tables(sql);

    match result {
        Err(e) => assert_eq!(e, ValidationError::CreateTableNotTemp),
        _ => panic!("ValidationError::CreateTableNotTemp expected!")
    }
}

#[test]
fn test_drop_non_temp_table_is_rejected() {
    let sql = "DROP TABLE users";
    let result = validate_readonly_except_temp_tables(sql);
    
    match result {
        Err(e) => assert_eq!(e, ValidationError::DropTableNotTemp),
        _ => panic!("ValidationError::DropTableNotTemp expected!")
    }
}

#[test]
fn test_insert_into_non_temp_table_is_rejected() {
    let sql = "INSERT INTO users (id) VALUES (1)";
    let result = validate_readonly_except_temp_tables(sql);

    match result {
        Err(e) => assert_eq!(e, ValidationError::InsertNotTemp),
        _ => panic!("ValidationError::InsertNotTemp expected!")
    }
}

#[test]
fn test_select_into_non_temp_table_is_rejected() {
    let sql = "SELECT * INTO users_archive FROM users";
    let result = validate_readonly_except_temp_tables(sql);

    match result {
        Err(e) => assert_eq!(e, ValidationError::IntoClauseNotTemp),
        _ => panic!("ValidationError::IntoClauseNotTemp expected!")
    }
}

#[test]
fn test_drop_temp_table_without_hash_is_rejected() {
    let sql = "DROP TABLE tmp";
    let result = validate_readonly_except_temp_tables(sql);

    match result {
        Err(e) => assert_eq!(e, ValidationError::DropTableNotTemp),
        _ => panic!("ValidationError::DropTableNotTemp expected!")
    }
}

#[test]
fn test_create_index_on_non_hash_table_is_rejected() {
    let sql = "CREATE INDEX idx_tmp_id ON tmp (id)";
    let result = validate_readonly_except_temp_tables(sql);

    match result {
        Err(e) => assert_eq!(e, ValidationError::CreateIndexNotTemp),
        _ => panic!("ValidationError::CreateIndexNotTemp expected!")
    }
}

#[test]
fn test_mixed_allowed_and_rejected_returns_err() {
    let sql = "SELECT * FROM users; INSERT INTO real_table VALUES (1)";
    let result = validate_readonly_except_temp_tables(sql);

    assert!(result.is_err(), "ValidationError expected!");
}

// --- Parse errors ---

#[test]
fn test_invalid_sql_returns_parse_error() {
    let sql = "SELEC * FROM";
    let result = validate_readonly_except_temp_tables(sql);
    
    match result {
        Err(ValidationError::ParseError(_)) => {},
        other => panic!("expected ParseError, got {other:?}")
    }
}

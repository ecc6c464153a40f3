use itol_engine::db::{
    plan_connection, plan_connection_test, plan_db_request, db_result_json, render_query_result,
    truncate_rows, schema_statement, stage_error, ConnectionPlan, DatabaseConnection, DbError,
    DbRow, DbStage, DbValue, ExecuteDbParams,
};

fn row(cells: Vec<(&str, DbValue)>) -> DbRow {
    DbRow { cells: cells.into_iter().map(|(k, v)| (k.to_string(), v)).collect() }
}

#[test]
fn scenario_single_row_query_result() {
    let rows = vec![row(vec![("one", DbValue::Int(1))])];
    let json = db_result_json(rows, Some(10));
    assert_eq!(json, "{\"success\":true,\"rowCount\":1,\"data\":[{\"one\":1}],\"truncated\":false}");
}

#[test]
fn truncation_reports_min_rows_and_flag() {
    let make = |n: usize| {
        (0..n)
            .map(|i| row(vec![("n", DbValue::Int(i as i64))]))
            .collect::<Vec<_>>()
    };
    // More rows than the cap: min(M, N) rows, truncated.
    let (kept, truncated) = truncate_rows(make(5), Some(3));
    assert_eq!(kept.len(), 3);
    assert!(truncated);
    // Fewer rows than the cap: all rows, not truncated.
    let (kept, truncated) = truncate_rows(make(2), Some(3));
    assert_eq!(kept.len(), 2);
    assert!(!truncated);
    // Exactly the cap: all rows, not truncated.
    let (kept, truncated) = truncate_rows(make(3), Some(3));
    assert_eq!(kept.len(), 3);
    assert!(!truncated);
    // Default cap is 1000.
    let (kept, truncated) = truncate_rows(make(1001), None);
    assert_eq!(kept.len(), 1000);
    assert!(truncated);

    let json = db_result_json(make(5), Some(3));
    assert_eq!(
        json,
        "{\"success\":true,\"rowCount\":3,\"data\":[{\"n\":0},{\"n\":1},{\"n\":2}],\"truncated\":true}"
    );
}

#[test]
fn every_decoded_shape_renders_into_the_envelope() {
    let rows = vec![row(vec![
        ("s", DbValue::Str("a\"b".to_string())),
        ("i", DbValue::Int(-42)),
        ("f", DbValue::Num("2.5".to_string())),
        ("b", DbValue::Bool(true)),
        ("z", DbValue::Null),
    ])];
    let json = render_query_result(&rows, false);
    assert_eq!(
        json,
        "{\"success\":true,\"rowCount\":1,\"data\":[{\"s\":\"a\\\"b\",\"i\":-42,\"f\":2.5,\"b\":true,\"z\":null}],\"truncated\":false}"
    );
}

#[test]
fn sqlite_plan_builds_its_connection_string() {
    let conn = DatabaseConnection::Sqlite { file_path: Some("./t.db".to_string()) };
    match plan_connection(&conn).unwrap() {
        ConnectionPlan::Sqlite { connection_string } => {
            assert_eq!(connection_string, "sqlite:./t.db")
        }
        _ => panic!("wrong backend"),
    }

    let missing = DatabaseConnection::Sqlite { file_path: None };
    let err = plan_connection(&missing).unwrap_err();
    assert!(matches!(&err, DbError::MissingConnectionField(_)));
    assert_eq!(err.message(), "SQLite file path is required");
}

#[test]
fn postgres_plan_defaults_port_and_sets_schema() {
    let conn = DatabaseConnection::PostgreSQL {
        host: Some("h".to_string()),
        port: None,
        database: Some("db".to_string()),
        username: Some("u".to_string()),
        password: Some("pw".to_string()),
        schema: Some("public".to_string()),
        ssl_mode: None,
    };
    match plan_connection(&conn).unwrap() {
        ConnectionPlan::PostgreSql { connection_string, schema_statement } => {
            assert_eq!(connection_string, "postgresql://u:pw@h:5432/db");
            assert_eq!(schema_statement.unwrap(), "SET search_path TO public;");
        }
        _ => panic!("wrong backend"),
    }
    assert_eq!(schema_statement("s1"), "SET search_path TO s1;");

    let missing = DatabaseConnection::PostgreSQL {
        host: Some("h".to_string()),
        port: None,
        database: None,
        username: Some("u".to_string()),
        password: Some("pw".to_string()),
        schema: None,
        ssl_mode: None,
    };
    assert_eq!(plan_connection(&missing).unwrap_err().message(), "Database name is required");
}

#[test]
fn oracle_plan_prefers_service_name_over_sid() {
    let service = DatabaseConnection::Oracle {
        host: Some("h".to_string()),
        port: Some(1522),
        service_name: Some("svc".to_string()),
        sid: Some("sid0".to_string()),
        username: Some("u".to_string()),
        password: Some("pw".to_string()),
    };
    match plan_connection(&service).unwrap() {
        ConnectionPlan::Oracle { connect_string, username, password } => {
            assert_eq!(connect_string, "//h:1522/svc");
            assert_eq!(username, "u");
            assert_eq!(password, "pw");
        }
        _ => panic!("wrong backend"),
    }

    let sid = DatabaseConnection::Oracle {
        host: Some("h".to_string()),
        port: None,
        service_name: None,
        sid: Some("sid0".to_string()),
        username: Some("u".to_string()),
        password: Some("pw".to_string()),
    };
    match plan_connection(&sid).unwrap() {
        ConnectionPlan::Oracle { connect_string, .. } => assert_eq!(connect_string, "h:1521/sid0"),
        _ => panic!("wrong backend"),
    }

    let neither = DatabaseConnection::Oracle {
        host: Some("h".to_string()),
        port: None,
        service_name: None,
        sid: None,
        username: Some("u".to_string()),
        password: Some("pw".to_string()),
    };
    assert_eq!(
        plan_connection(&neither).unwrap_err().message(),
        "Either service_name or sid must be provided for Oracle connection"
    );
}

#[test]
fn connection_probe_carries_query_and_message() {
    let sqlite = DatabaseConnection::Sqlite { file_path: Some("./t.db".to_string()) };
    let probe = plan_connection_test(&sqlite).unwrap();
    assert_eq!(probe.probe_query, "SELECT 1");
    assert_eq!(probe.success_message, "SQLite connection successful");

    let pg = DatabaseConnection::PostgreSQL {
        host: Some("h".to_string()),
        port: Some(5433),
        database: Some("db".to_string()),
        username: Some("u".to_string()),
        password: Some("pw".to_string()),
        schema: Some("ignored".to_string()),
        ssl_mode: Some(true),
    };
    let probe = plan_connection_test(&pg).unwrap();
    assert_eq!(probe.probe_query, "SELECT 1");
    assert_eq!(probe.success_message, "PostgreSQL connection successful");
    match probe.plan {
        ConnectionPlan::PostgreSql { schema_statement, .. } => assert!(schema_statement.is_none()),
        _ => panic!("wrong backend"),
    }

    let oracle = DatabaseConnection::Oracle {
        host: Some("h".to_string()),
        port: None,
        service_name: Some("svc".to_string()),
        sid: None,
        username: Some("u".to_string()),
        password: Some("pw".to_string()),
    };
    let probe = plan_connection_test(&oracle).unwrap();
    assert_eq!(probe.probe_query, "SELECT 1 FROM DUAL");
    assert_eq!(probe.success_message, "Oracle connection successful");

    let bad = DatabaseConnection::Oracle {
        host: None,
        port: None,
        service_name: Some("svc".to_string()),
        sid: None,
        username: Some("u".to_string()),
        password: Some("pw".to_string()),
    };
    assert_eq!(plan_connection_test(&bad).unwrap_err().message(), "Oracle host is required");
}

#[test]
fn db_request_plan_carries_query_and_cap_through() {
    let params = ExecuteDbParams {
        connection: DatabaseConnection::Sqlite { file_path: Some("./t.db".to_string()) },
        query: "SELECT 1 AS one".to_string(),
        timeout: None,
        max_rows: Some(10),
        project_id: None,
        page_id: 1,
        run_id: "run1".to_string(),
    };
    let planned = plan_db_request(&params).unwrap();
    assert_eq!(planned.query, "SELECT 1 AS one");
    assert_eq!(planned.max_rows, Some(10));
    match planned.plan {
        ConnectionPlan::Sqlite { connection_string } => assert_eq!(connection_string, "sqlite:./t.db"),
        _ => panic!("wrong backend"),
    }

    let bad = ExecuteDbParams {
        connection: DatabaseConnection::Sqlite { file_path: None },
        query: "SELECT 1".to_string(),
        timeout: None,
        max_rows: None,
        project_id: None,
        page_id: 1,
        run_id: "run1".to_string(),
    };
    let err = plan_db_request(&bad).unwrap_err();
    assert_eq!(err.message(), "SQLite file path is required");
}

#[test]
fn stage_errors_keep_the_driver_message_behind_a_prefix() {
    let e = stage_error(DbStage::ConnectSqlite, "locked");
    assert!(matches!(&e, DbError::ConnectFailed(_)));
    assert_eq!(e.message(), "Failed to connect to SQLite: locked");

    assert_eq!(
        stage_error(DbStage::ConnectPostgres, "refused").message(),
        "Failed to connect to PostgreSQL: refused"
    );
    assert_eq!(
        stage_error(DbStage::ConnectOracle, "refused").message(),
        "Failed to connect to Oracle: refused"
    );
    let schema = stage_error(DbStage::SetSchema, "no schema");
    assert!(matches!(&schema, DbError::SchemaSetFailed(_)));
    assert_eq!(schema.message(), "Failed to set schema: no schema");
    let q = stage_error(DbStage::Query, "syntax");
    assert!(matches!(&q, DbError::QueryFailed(_)));
    assert_eq!(q.message(), "Query execution failed: syntax");
    assert_eq!(stage_error(DbStage::TestConnect, "x").message(), "Connection failed: x");
    assert_eq!(stage_error(DbStage::TestQuery, "x").message(), "Test query failed: x");
    assert_eq!(stage_error(DbStage::FetchRow, "x").message(), "Failed to fetch row: x");
    assert_eq!(stage_error(DbStage::OracleTask, "x").message(), "Oracle task failed: x");
}

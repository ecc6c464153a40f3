//! The database query strategy: validating connection descriptors, building
//! the backend connection strings, capping result rows, and rendering the
//! canonical result envelope. Opening connections and fetching rows is
//! driver work done outside the library; the decoded rows come back as
//! plain values and everything from there on is verified.

use vstd::prelude::*;
use vstd::string::StringExecFns;
use crate::json::{json_quoted, json_quote, dec_int, i64_to_decimal};
use crate::text::{dec_digits, u64_to_decimal};

verus! {

/// A tagged connection descriptor for one of the three backends. Optional
/// fields mirror the loose shape in which callers supply them; validation
/// happens in `plan_connection`.
#[derive(Debug, Clone)]
pub enum DatabaseConnection {
    /// An SQLite database file.
    Sqlite {
        /// Path of the database file.
        file_path: Option<String>,
    },
    /// A PostgreSQL server.
    PostgreSQL {
        /// Server host name.
        host: Option<String>,
        /// Server port; 5432 when absent.
        port: Option<u16>,
        /// Database name.
        database: Option<String>,
        /// Login user.
        username: Option<String>,
        /// Login password.
        password: Option<String>,
        /// Schema to activate before the query, if any.
        schema: Option<String>,
        /// Whether TLS was requested; carried through unused.
        ssl_mode: Option<bool>,
    },
    /// An Oracle server.
    Oracle {
        /// Server host name.
        host: Option<String>,
        /// Server port; 1521 when absent.
        port: Option<u16>,
        /// Service name, preferred over the SID when both are given.
        service_name: Option<String>,
        /// System identifier, used when no service name is given.
        sid: Option<String>,
        /// Login user.
        username: Option<String>,
        /// Login password.
        password: Option<String>,
    },
}

/// One execution request for the database strategy.
pub struct ExecuteDbParams {
    /// Where to connect.
    pub connection: DatabaseConnection,
    /// The query to run, verbatim.
    pub query: String,
    /// Unused request timeout carried through from the caller.
    pub timeout: Option<u64>,
    /// Row cap; 1000 when absent.
    pub max_rows: Option<i32>,
    /// Project identifier, if the node belongs to a project.
    pub project_id: Option<i32>,
    /// Page identifier the node sits on.
    pub page_id: i32,
    /// Run identifier.
    pub run_id: String,
}

/// The request shape of the connection probe operation.
pub struct TestConnectionParams {
    /// Where to connect.
    pub connection: DatabaseConnection,
}

/// The terminal failures of the database strategy, each carrying the
/// human-readable message that crosses the boundary.
#[derive(Debug)]
pub enum DbError {
    /// A backend-required field is absent from the descriptor.
    MissingConnectionField(String),
    /// The connection could not be opened.
    ConnectFailed(String),
    /// The session schema could not be set.
    SchemaSetFailed(String),
    /// The query itself failed.
    QueryFailed(String),
}

/// The message carried by a database-strategy error.
pub open spec fn db_error_text(e: &DbError) -> Seq<char> {
    match e {
        DbError::MissingConnectionField(m) => m@,
        DbError::ConnectFailed(m) => m@,
        DbError::SchemaSetFailed(m) => m@,
        DbError::QueryFailed(m) => m@,
    }
}

impl DbError {
    /// The human-readable message of this error.
    pub fn message(&self) -> (r: &String)
        ensures
            r@ == db_error_text(self),
    {
        match self {
            DbError::MissingConnectionField(m) => m,
            DbError::ConnectFailed(m) => m,
            DbError::SchemaSetFailed(m) => m,
            DbError::QueryFailed(m) => m,
        }
    }
}

/// One decoded column value. The decode probes run in driver code outside
/// the library, in the fixed priority order (string, then integer, then
/// floating point, then boolean); what cannot be decoded arrives as `Null`.
#[derive(Debug)]
pub enum DbValue {
    /// No decoding succeeded, or the column was NULL.
    Null,
    /// A boolean column value.
    Bool(bool),
    /// An integer column value.
    Int(i64),
    /// A floating-point column value, already rendered as its JSON number
    /// literal by the decoder; spliced into the envelope verbatim.
    Num(String),
    /// A text column value.
    Str(String),
}

/// One decoded row: column names and values in column order.
#[derive(Debug)]
pub struct DbRow {
    /// The row's cells, one per column.
    pub cells: Vec<(String, DbValue)>,
}

/// How one decoded value appears in the result envelope.
pub open spec fn render_value(v: &DbValue) -> Seq<char> {
    match v {
        DbValue::Null => "null"@,
        DbValue::Bool(b) => if *b {
            "true"@
        } else {
            "false"@
        },
        DbValue::Int(i) => dec_int(*i as int),
        DbValue::Num(s) => s@,
        DbValue::Str(s) => json_quoted(s@),
    }
}

/// How a row's cells appear, comma-separated, in column order.
pub open spec fn render_cells(cells: Seq<(String, DbValue)>) -> Seq<char>
    decreases cells.len(),
{
    if cells.len() == 0 {
        Seq::empty()
    } else if cells.len() == 1 {
        json_quoted(cells[0].0@) + ":"@ + render_value(&cells[0].1)
    } else {
        render_cells(cells.drop_last()) + ","@ + json_quoted(cells.last().0@) + ":"@
            + render_value(&cells.last().1)
    }
}

/// How one row appears: a JSON object of its cells.
pub open spec fn render_row(row: &DbRow) -> Seq<char> {
    "{"@ + render_cells(row.cells@) + "}"@
}

/// How the rows appear, comma-separated.
pub open spec fn render_rows(rows: Seq<DbRow>) -> Seq<char>
    decreases rows.len(),
{
    if rows.len() == 0 {
        Seq::empty()
    } else if rows.len() == 1 {
        render_row(&rows[0])
    } else {
        render_rows(rows.drop_last()) + ","@ + render_row(&rows.last())
    }
}

/// The canonical result envelope of the database strategy.
pub open spec fn query_result_spec(rows: Seq<DbRow>, truncated: bool) -> Seq<char> {
    "{\"success\":true,\"rowCount\":"@ + dec_digits(rows.len()) + ",\"data\":["@ + render_rows(rows)
        + "],\"truncated\":"@ + (if truncated {
        "true"@
    } else {
        "false"@
    }) + "}"@
}

fn render_value_exec(v: &DbValue) -> (r: String)
    ensures
        r@ == render_value(v),
{
    match v {
        DbValue::Null => {
            let mut s = String::new();
            s.append("null");
            s
        },
        DbValue::Bool(b) => {
            let mut s = String::new();
            if *b {
                s.append("true");
            } else {
                s.append("false");
            }
            s
        },
        DbValue::Int(i) => i64_to_decimal(*i),
        DbValue::Num(s) => s.clone(),
        DbValue::Str(s) => json_quote(s.as_str()),
    }
}

fn render_row_exec(row: &DbRow) -> (r: String)
    ensures
        r@ == render_row(row),
{
    let mut s = String::new();
    s.append("{");
    let n = row.cells.len();
    let mut i: usize = 0;
    while i < n
        invariant
            i <= n,
            n == row.cells@.len(),
            s@ == "{"@ + render_cells(row.cells@.take(i as int)),
        decreases n - i,
    {
        if i > 0 {
            s.append(",");
        }
        let quoted = json_quote(row.cells[i].0.as_str());
        s.append(quoted.as_str());
        s.append(":");
        let value = render_value_exec(&row.cells[i].1);
        s.append(value.as_str());
        proof {
            assert(row.cells@.take(i + 1).drop_last() =~= row.cells@.take(i as int));
            assert(row.cells@.take(i + 1).last() == row.cells@[i as int]);
        }
        i = i + 1;
    }
    s.append("}");
    proof {
        assert(row.cells@.take(n as int) =~= row.cells@);
    }
    s
}

/// Renders the result envelope for already-capped rows.
pub fn render_query_result(rows: &Vec<DbRow>, truncated: bool) -> (r: String)
    ensures
        r@ == query_result_spec(rows@, truncated),
{
    let mut s = String::new();
    s.append("{\"success\":true,\"rowCount\":");
    let count = u64_to_decimal(rows.len() as u64);
    s.append(count.as_str());
    s.append(",\"data\":[");
    let n = rows.len();
    let mut i: usize = 0;
    while i < n
        invariant
            i <= n,
            n == rows@.len(),
            s@ == "{\"success\":true,\"rowCount\":"@ + dec_digits(rows@.len()) + ",\"data\":["@
                + render_rows(rows@.take(i as int)),
        decreases n - i,
    {
        if i > 0 {
            s.append(",");
        }
        let row = render_row_exec(&rows[i]);
        s.append(row.as_str());
        proof {
            assert(rows@.take(i + 1).drop_last() =~= rows@.take(i as int));
            assert(rows@.take(i + 1).last() == rows@[i as int]);
        }
        i = i + 1;
    }
    s.append("],\"truncated\":");
    if truncated {
        s.append("true");
    } else {
        s.append("false");
    }
    s.append("}");
    proof {
        assert(rows@.take(n as int) =~= rows@);
    }
    s
}

/// The SQLite connection string for a database file.
pub open spec fn sqlite_conn_spec(path: Seq<char>) -> Seq<char> {
    "sqlite:"@ + path
}

/// The PostgreSQL connection string for the given credentials and location.
pub open spec fn pg_conn_spec(
    username: Seq<char>,
    password: Seq<char>,
    host: Seq<char>,
    port: u16,
    database: Seq<char>,
) -> Seq<char> {
    "postgresql://"@ + username + ":"@ + password + "@"@ + host + ":"@ + dec_digits(port as nat)
        + "/"@ + database
}

/// The Oracle connect string: `//host:port/service` when a service name is
/// given, else `host:port/sid`.
pub open spec fn oracle_conn_spec(
    host: Seq<char>,
    port: u16,
    service_name: Option<Seq<char>>,
    sid: Option<Seq<char>>,
) -> Option<Seq<char>> {
    if service_name is Some {
        Some("//"@ + host + ":"@ + dec_digits(port as nat) + "/"@ + service_name.unwrap())
    } else if sid is Some {
        Some(host + ":"@ + dec_digits(port as nat) + "/"@ + sid.unwrap())
    } else {
        None
    }
}

/// The session command that activates a schema before the query.
pub open spec fn schema_statement_spec(schema: Seq<char>) -> Seq<char> {
    "SET search_path TO "@ + schema + ";"@
}

/// Builds the session command that activates a schema.
pub fn schema_statement(schema: &str) -> (r: String)
    ensures
        r@ == schema_statement_spec(schema@),
{
    let mut s = String::new();
    s.append("SET search_path TO ");
    s.append(schema);
    s.append(";");
    s
}

/// Everything needed to open one short-lived connection for one call.
#[derive(Debug)]
pub enum ConnectionPlan {
    /// Connect to an SQLite file.
    Sqlite {
        /// The driver connection string.
        connection_string: String,
    },
    /// Connect to a PostgreSQL server.
    PostgreSql {
        /// The driver connection string.
        connection_string: String,
        /// The session command to run before the query, if a schema was given.
        schema_statement: Option<String>,
    },
    /// Connect to an Oracle server.
    Oracle {
        /// The driver connect string.
        connect_string: String,
        /// Login user.
        username: String,
        /// Login password.
        password: String,
    },
}

/// What a valid connection plan for a descriptor looks like:
/// backend-required fields must be present; ports default to the backend's
/// standard one; for PostgreSQL a given schema becomes the session command.
pub open spec fn connection_planned(conn: &DatabaseConnection, r: &Result<ConnectionPlan, DbError>) -> bool {
    match conn {
            DatabaseConnection::Sqlite { file_path } => {
                match file_path {
                    Some(p) => r matches Ok(ConnectionPlan::Sqlite { connection_string })
                        && connection_string@ == sqlite_conn_spec(p@),
                    None => r matches Err(DbError::MissingConnectionField(m))
                        && m@ == "SQLite file path is required"@,
                }
            },
            DatabaseConnection::PostgreSQL { host, port, database, username, password, schema, .. } => {
                if host is None {
                    r matches Err(DbError::MissingConnectionField(m))
                        && m@ == "PostgreSQL host is required"@
                } else if database is None {
                    r matches Err(DbError::MissingConnectionField(m))
                        && m@ == "Database name is required"@
                } else if username is None {
                    r matches Err(DbError::MissingConnectionField(m))
                        && m@ == "Username is required"@
                } else if password is None {
                    r matches Err(DbError::MissingConnectionField(m))
                        && m@ == "Password is required"@
                } else {
                    let eport = if port is Some { port.unwrap() } else { 5432u16 };
                    r matches Ok(ConnectionPlan::PostgreSql { connection_string, schema_statement })
                        && connection_string@ == pg_conn_spec(
                        username.unwrap()@,
                        password.unwrap()@,
                        host.unwrap()@,
                        eport,
                        database.unwrap()@,
                    ) && (match schema {
                        Some(sc) => schema_statement matches Some(st) && st@ == schema_statement_spec(sc@),
                        None => schema_statement is None,
                    })
                }
            },
            DatabaseConnection::Oracle { host, port, service_name, sid, username, password } => {
                if host is None {
                    r matches Err(DbError::MissingConnectionField(m)) && m@ == "Oracle host is required"@
                } else if username is None {
                    r matches Err(DbError::MissingConnectionField(m)) && m@ == "Username is required"@
                } else if password is None {
                    r matches Err(DbError::MissingConnectionField(m)) && m@ == "Password is required"@
                } else {
                    let eport = if port is Some { port.unwrap() } else { 1521u16 };
                    let spec_conn = oracle_conn_spec(
                        host.unwrap()@,
                        eport,
                        match service_name { Some(s) => Some(s@), None => None },
                        match sid { Some(s) => Some(s@), None => None },
                    );
                    match spec_conn {
                        Some(cs) => r matches Ok(ConnectionPlan::Oracle { connect_string, username: u, password: p })
                            && connect_string@ == cs && u@ == username.unwrap()@ && p@ == password.unwrap()@,
                        None => r matches Err(DbError::MissingConnectionField(m))
                            && m@ == "Either service_name or sid must be provided for Oracle connection"@,
                    }
                }
            },
        }
}

/// Validates a connection descriptor and builds the connection plan.
pub fn plan_connection(conn: &DatabaseConnection) -> (r: Result<ConnectionPlan, DbError>)
    ensures
        connection_planned(conn, &r),
{
    match conn {
        DatabaseConnection::Sqlite { file_path } => {
            match file_path {
                Some(p) => {
                    let mut cs = String::new();
                    cs.append("sqlite:");
                    cs.append(p.as_str());
                    Ok(ConnectionPlan::Sqlite { connection_string: cs })
                },
                None => {
                    let mut m = String::new();
                    m.append("SQLite file path is required");
                    Err(DbError::MissingConnectionField(m))
                },
            }
        },
        DatabaseConnection::PostgreSQL { host, port, database, username, password, schema, .. } => {
            let host = match host {
                Some(h) => h,
                None => {
                    let mut m = String::new();
                    m.append("PostgreSQL host is required");
                    return Err(DbError::MissingConnectionField(m));
                },
            };
            let database = match database {
                Some(d) => d,
                None => {
                    let mut m = String::new();
                    m.append("Database name is required");
                    return Err(DbError::MissingConnectionField(m));
                },
            };
            let username = match username {
                Some(u) => u,
                None => {
                    let mut m = String::new();
                    m.append("Username is required");
                    return Err(DbError::MissingConnectionField(m));
                },
            };
            let password = match password {
                Some(p) => p,
                None => {
                    let mut m = String::new();
                    m.append("Password is required");
                    return Err(DbError::MissingConnectionField(m));
                },
            };
            let eport: u16 = match port {
                Some(p) => *p,
                None => 5432,
            };
            let mut cs = String::new();
            cs.append("postgresql://");
            cs.append(username.as_str());
            cs.append(":");
            cs.append(password.as_str());
            cs.append("@");
            cs.append(host.as_str());
            cs.append(":");
            let port_text = u64_to_decimal(eport as u64);
            cs.append(port_text.as_str());
            cs.append("/");
            cs.append(database.as_str());
            let schema_statement = match schema {
                Some(sc) => Some(crate::db::schema_statement(sc.as_str())),
                None => None,
            };
            Ok(ConnectionPlan::PostgreSql { connection_string: cs, schema_statement })
        },
        DatabaseConnection::Oracle { host, port, service_name, sid, username, password } => {
            let host = match host {
                Some(h) => h,
                None => {
                    let mut m = String::new();
                    m.append("Oracle host is required");
                    return Err(DbError::MissingConnectionField(m));
                },
            };
            let username = match username {
                Some(u) => u,
                None => {
                    let mut m = String::new();
                    m.append("Username is required");
                    return Err(DbError::MissingConnectionField(m));
                },
            };
            let password = match password {
                Some(p) => p,
                None => {
                    let mut m = String::new();
                    m.append("Password is required");
                    return Err(DbError::MissingConnectionField(m));
                },
            };
            let eport: u16 = match port {
                Some(p) => *p,
                None => 1521,
            };
            let port_text = u64_to_decimal(eport as u64);
            let connect_string = match service_name {
                Some(service) => {
                    let mut cs = String::new();
                    cs.append("//");
                    cs.append(host.as_str());
                    cs.append(":");
                    cs.append(port_text.as_str());
                    cs.append("/");
                    cs.append(service.as_str());
                    cs
                },
                None => {
                    match sid {
                        Some(sid_val) => {
                            let mut cs = String::new();
                            cs.append(host.as_str());
                            cs.append(":");
                            cs.append(port_text.as_str());
                            cs.append("/");
                            cs.append(sid_val.as_str());
                            cs
                        },
                        None => {
                            let mut m = String::new();
                            m.append("Either service_name or sid must be provided for Oracle connection");
                            return Err(DbError::MissingConnectionField(m));
                        },
                    }
                },
            };
            Ok(ConnectionPlan::Oracle {
                connect_string,
                username: username.clone(),
                password: password.clone(),
            })
        },
    }
}

/// Everything one query execution needs once its descriptor passed
/// validation: where to connect, the query, and the row cap.
#[derive(Debug)]
pub struct DbRequestPlan {
    /// How to connect, for this call alone.
    pub plan: ConnectionPlan,
    /// The query to run, verbatim.
    pub query: String,
    /// The row cap as requested; 1000 applies when absent.
    pub max_rows: Option<i32>,
}

/// Validates one database execution request and builds its plan: the
/// connection descriptor must carry the backend's required fields, and the
/// query and row cap pass through unchanged.
pub fn plan_db_request(params: &ExecuteDbParams) -> (r: Result<DbRequestPlan, DbError>)
    ensures
        match r {
            Ok(dp) => connection_planned(&params.connection, &Ok(dp.plan)) && dp.query@
                == params.query@ && dp.max_rows == params.max_rows,
            Err(e) => connection_planned(&params.connection, &Err(e)),
        },
{
    let plan = match plan_connection(&params.connection) {
        Ok(p) => p,
        Err(e) => {
            return Err(e);
        },
    };
    Ok(DbRequestPlan { plan, query: params.query.clone(), max_rows: params.max_rows })
}

/// The stages at which driver work can fail, each with its message prefix.
#[derive(Debug, Clone, Copy, PartialEq, Eq, Structural)]
pub enum DbStage {
    /// Opening the SQLite connection for a query.
    ConnectSqlite,
    /// Opening the PostgreSQL connection for a query.
    ConnectPostgres,
    /// Opening the Oracle connection for a query.
    ConnectOracle,
    /// Opening a connection during the connection probe.
    TestConnect,
    /// Running the session command that sets the schema.
    SetSchema,
    /// Running the user's query.
    Query,
    /// Running the trivial probe query.
    TestQuery,
    /// Fetching one row from a lazy result set.
    FetchRow,
    /// The dedicated worker thread for the synchronous driver failed.
    OracleTask,
}

/// The message prefix of each stage, so that callers can tell setup failure
/// from query failure.
pub open spec fn stage_prefix(stage: DbStage) -> Seq<char> {
    match stage {
        DbStage::ConnectSqlite => "Failed to connect to SQLite: "@,
        DbStage::ConnectPostgres => "Failed to connect to PostgreSQL: "@,
        DbStage::ConnectOracle => "Failed to connect to Oracle: "@,
        DbStage::TestConnect => "Connection failed: "@,
        DbStage::SetSchema => "Failed to set schema: "@,
        DbStage::Query => "Query execution failed: "@,
        DbStage::TestQuery => "Test query failed: "@,
        DbStage::FetchRow => "Failed to fetch row: "@,
        DbStage::OracleTask => "Oracle task failed: "@,
    }
}

/// Wraps a driver message into the error of its stage: connection stages
/// yield `ConnectFailed`, the schema stage `SchemaSetFailed`, everything
/// else `QueryFailed`; the message keeps the driver's words behind the
/// stage's prefix.
pub fn stage_error(stage: DbStage, driver_message: &str) -> (r: DbError)
    ensures
        db_error_text(&r) == stage_prefix(stage) + driver_message@,
        match stage {
            DbStage::ConnectSqlite | DbStage::ConnectPostgres | DbStage::ConnectOracle
                | DbStage::TestConnect => r is ConnectFailed,
            DbStage::SetSchema => r is SchemaSetFailed,
            DbStage::Query | DbStage::TestQuery | DbStage::FetchRow | DbStage::OracleTask => r is QueryFailed,
        },
{
    let mut m = String::new();
    match stage {
        DbStage::ConnectSqlite => m.append("Failed to connect to SQLite: "),
        DbStage::ConnectPostgres => m.append("Failed to connect to PostgreSQL: "),
        DbStage::ConnectOracle => m.append("Failed to connect to Oracle: "),
        DbStage::TestConnect => m.append("Connection failed: "),
        DbStage::SetSchema => m.append("Failed to set schema: "),
        DbStage::Query => m.append("Query execution failed: "),
        DbStage::TestQuery => m.append("Test query failed: "),
        DbStage::FetchRow => m.append("Failed to fetch row: "),
        DbStage::OracleTask => m.append("Oracle task failed: "),
    }
    m.append(driver_message);
    match stage {
        DbStage::ConnectSqlite => DbError::ConnectFailed(m),
        DbStage::ConnectPostgres => DbError::ConnectFailed(m),
        DbStage::ConnectOracle => DbError::ConnectFailed(m),
        DbStage::TestConnect => DbError::ConnectFailed(m),
        DbStage::SetSchema => DbError::SchemaSetFailed(m),
        DbStage::Query => DbError::QueryFailed(m),
        DbStage::TestQuery => DbError::QueryFailed(m),
        DbStage::FetchRow => DbError::QueryFailed(m),
        DbStage::OracleTask => DbError::QueryFailed(m),
    }
}

/// Everything the connection probe needs: the connection plan (with no
/// session command), the trivial probe query, and the success message to
/// return.
#[derive(Debug)]
pub struct ConnectionProbe {
    /// How to connect.
    pub plan: ConnectionPlan,
    /// The trivial query that proves the connection works.
    pub probe_query: String,
    /// What to report when the probe succeeds.
    pub success_message: String,
}

/// Validates a descriptor for the probe operation and builds the probe:
/// the same required fields as a query, the backend's trivial probe query,
/// and its success message. No user SQL is involved.
pub fn plan_connection_test(conn: &DatabaseConnection) -> (r: Result<ConnectionProbe, DbError>)
    ensures
        match r {
            Ok(probe) => {
                match conn {
                    DatabaseConnection::Sqlite { file_path } => file_path is Some
                        && probe.probe_query@ == "SELECT 1"@ && probe.success_message@
                        == "SQLite connection successful"@ && (
                    probe.plan matches ConnectionPlan::Sqlite { connection_string }
                        && connection_string@ == sqlite_conn_spec(file_path.unwrap()@)),
                    DatabaseConnection::PostgreSQL { host, port, database, username, password, .. } => host is Some
                        && database is Some && username is Some && password is Some
                        && probe.probe_query@ == "SELECT 1"@ && probe.success_message@
                        == "PostgreSQL connection successful"@ && (
                    probe.plan matches ConnectionPlan::PostgreSql { connection_string, schema_statement }
                        && schema_statement is None && connection_string@ == pg_conn_spec(
                        username.unwrap()@,
                        password.unwrap()@,
                        host.unwrap()@,
                        if port is Some {
                            port.unwrap()
                        } else {
                            5432u16
                        },
                        database.unwrap()@,
                    )),
                    DatabaseConnection::Oracle { host, port, service_name, sid, username, password } => host is Some
                        && username is Some && password is Some && (service_name is Some
                        || sid is Some) && probe.probe_query@ == "SELECT 1 FROM DUAL"@
                        && probe.success_message@ == "Oracle connection successful"@ && (
                    probe.plan matches ConnectionPlan::Oracle { connect_string, username: u, password: p }
                        && Some(connect_string@) == oracle_conn_spec(
                        host.unwrap()@,
                        if port is Some {
                            port.unwrap()
                        } else {
                            1521u16
                        },
                        match service_name {
                            Some(s) => Some(s@),
                            None => None,
                        },
                        match sid {
                            Some(s) => Some(s@),
                            None => None,
                        },
                    ) && u@ == username.unwrap()@ && p@ == password.unwrap()@),
                }
            },
            Err(e) => plan_connection_result_spec(conn) is None && connection_planned(
                conn,
                &Err(e),
            ),
        },
{
    let plan = match plan_connection(conn) {
        Ok(p) => p,
        Err(e) => {
            return Err(e);
        },
    };
    // The probe never runs user SQL, so it sets no schema either.
    let plan = match plan {
        ConnectionPlan::PostgreSql { connection_string, .. } => ConnectionPlan::PostgreSql {
            connection_string,
            schema_statement: None,
        },
        other => other,
    };
    let mut probe_query = String::new();
    let mut success_message = String::new();
    match conn {
        DatabaseConnection::Sqlite { .. } => {
            probe_query.append("SELECT 1");
            success_message.append("SQLite connection successful");
        },
        DatabaseConnection::PostgreSQL { .. } => {
            probe_query.append("SELECT 1");
            success_message.append("PostgreSQL connection successful");
        },
        DatabaseConnection::Oracle { .. } => {
            probe_query.append("SELECT 1 FROM DUAL");
            success_message.append("Oracle connection successful");
        },
    }
    Ok(ConnectionProbe { plan, probe_query, success_message })
}

/// Whether a descriptor passes validation, as a predicate: `Some(())` where
/// `plan_connection` succeeds, `None` where it reports a missing field.
pub open spec fn plan_connection_result_spec(conn: &DatabaseConnection) -> Option<()> {
    match conn {
        DatabaseConnection::Sqlite { file_path } => {
            if file_path is Some {
                Some(())
            } else {
                None
            }
        },
        DatabaseConnection::PostgreSQL { host, database, username, password, .. } => {
            if host is Some && database is Some && username is Some && password is Some {
                Some(())
            } else {
                None
            }
        },
        DatabaseConnection::Oracle { host, service_name, sid, username, password, .. } => {
            if host is Some && username is Some && password is Some && (service_name is Some
                || sid is Some) {
                Some(())
            } else {
                None
            }
        },
    }
}

/// The row cap in effect for a request: 1000 when unset; a negative cap
/// wraps around the machine word exactly as the original conversion did,
/// which in practice disables truncation.
pub open spec fn row_cap(max_rows: Option<i32>) -> nat {
    match max_rows {
        None => 1000,
        Some(m) => if m >= 0 {
            m as nat
        } else {
            (usize::MAX - ((-(m + 1)) as nat)) as nat
        },
    }
}

/// Keeps at most the row cap many rows. The result holds `min(M, cap)` rows
/// of the `M` fetched, in order, and reports truncation exactly when rows
/// were dropped.
pub fn truncate_rows(rows: Vec<DbRow>, max_rows: Option<i32>) -> (r: (Vec<DbRow>, bool))
    ensures
        r.0@ == rows@.take(crate::spec_min(rows@.len() as int, row_cap(max_rows) as int)),
        r.1 == (rows@.len() > row_cap(max_rows)),
{
    let cap: usize = match max_rows {
        None => 1000,
        Some(m) => {
            if m >= 0 {
                m as usize
            } else {
                usize::MAX - ((-(m + 1)) as usize)
            }
        },
    };
    let mut rows = rows;
    if rows.len() > cap {
        rows.truncate(cap);
        proof {
            assert(rows@ =~= rows@.take(rows@.len() as int));
        }
        (rows, true)
    } else {
        proof {
            assert(rows@.take(rows@.len() as int) =~= rows@);
        }
        (rows, false)
    }
}

/// Caps the fetched rows and renders the result envelope in one step: the
/// envelope reports `min(M, cap)` rows and `truncated` exactly when more
/// were fetched than the cap allows.
pub fn db_result_json(rows: Vec<DbRow>, max_rows: Option<i32>) -> (r: String)
    ensures
        r@ == query_result_spec(
            rows@.take(crate::spec_min(rows@.len() as int, row_cap(max_rows) as int)),
            rows@.len() > row_cap(max_rows),
        ),
{
    let (kept, truncated) = truncate_rows(rows, max_rows);
    render_query_result(&kept, truncated)
}

} // verus!

//! SQL query models: requests, results, and database listings.
//!
//! The query-execution path validates and forwards; it never runs a
//! statement itself.

use vstd::prelude::*;
use vstd::string::StrSliceExecFns;
use crate::errors::AppError;

verus! {

/// The default row limit of a query request.
pub fn default_limit() -> (r: Option<u32>)
    ensures
        r == Some(1000u32),
{
    Some(1000)
}

/// Request body for executing a SQL query.
pub struct QueryRequest {
    /// ID of the connection to use.
    pub connection_id: String,
    /// SQL statement to execute.
    pub sql: String,
    /// Maximum number of rows to return.
    pub limit: Option<u32>,
}

impl QueryRequest {
    /// Whether the request carries both required fields.
    pub open spec fn spec_valid(self) -> bool {
        self.connection_id@.len() >= 1 && self.sql@.len() >= 1
    }

    /// Checks that the connection id and the statement are both nonempty.
    pub fn validate(&self) -> (r: Result<(), AppError>)
        ensures
            r is Ok <==> self.spec_valid(),
            r matches Err(e) ==> e is Validation,
    {
        if self.connection_id.as_str().unicode_len() == 0 {
            Err(AppError::Validation("Connection ID is required".to_owned()))
        } else if self.sql.as_str().unicode_len() == 0 {
            Err(AppError::Validation("SQL statement is required".to_owned()))
        } else {
            Ok(())
        }
    }
}

/// Column information in a query result.
pub struct ColumnInfo {
    /// Column name.
    pub name: String,
    /// Column data type.
    pub data_type: String,
    /// Whether the column is nullable.
    pub nullable: Option<bool>,
}

/// Result of a SQL query execution, rows rendered as text cells.
pub struct QueryResult {
    /// Column information.
    pub columns: Vec<ColumnInfo>,
    /// Row data.
    pub rows: Vec<Vec<String>>,
    /// Number of rows returned.
    pub row_count: usize,
    /// Number of rows affected, for modifying statements.
    pub affected_rows: Option<u64>,
    /// Query execution time in milliseconds.
    pub execution_time_ms: u64,
}

impl QueryResult {
    /// Creates a new empty query result.
    pub fn empty() -> (r: Self)
        ensures
            r.columns@ == Seq::<ColumnInfo>::empty(),
            r.rows@ == Seq::<Vec<String>>::empty(),
            r.row_count == 0,
            r.affected_rows is None,
            r.execution_time_ms == 0,
    {
        QueryResult {
            columns: Vec::new(),
            rows: Vec::new(),
            row_count: 0,
            affected_rows: None,
            execution_time_ms: 0,
        }
    }

    /// Creates a query result carrying only an affected-row count, for
    /// modifying statements.
    pub fn affected(affected: u64, execution_time_ms: u64) -> (r: Self)
        ensures
            r.columns@ == Seq::<ColumnInfo>::empty(),
            r.rows@ == Seq::<Vec<String>>::empty(),
            r.row_count == 0,
            r.affected_rows == Some(affected),
            r.execution_time_ms == execution_time_ms,
    {
        QueryResult {
            columns: Vec::new(),
            rows: Vec::new(),
            row_count: 0,
            affected_rows: Some(affected),
            execution_time_ms,
        }
    }
}

/// Request parameters for listing databases.
pub struct ListDatabasesRequest {
    /// Filter by backend kind label.
    pub db_type: Option<String>,
    /// Search keyword for name filtering.
    pub search: Option<String>,
}

/// Database item representing a database instance.
pub struct DatabaseItem {
    /// Unique database identifier.
    pub id: u32,
    /// Database display name.
    pub name: String,
    /// Backend kind label.
    pub db_type: String,
    /// Database host address.
    pub host: String,
    /// Database port number.
    pub port: u16,
}

impl DatabaseItem {
    /// Creates a new database item.
    pub fn new(id: u32, name: &str, db_type: &str, host: &str, port: u16) -> (r: Self)
        ensures
            r.id == id,
            r.name@ == name@,
            r.db_type@ == db_type@,
            r.host@ == host@,
            r.port == port,
    {
        DatabaseItem {
            id,
            name: name.to_owned(),
            db_type: db_type.to_owned(),
            host: host.to_owned(),
            port,
        }
    }
}

} // verus!

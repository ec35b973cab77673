//! Error taxonomy of the connection manager.
//!
//! Every failure is scoped to a single operation and returned as a typed
//! error; nothing here aborts the process.

use vstd::prelude::*;

verus! {

/// A typed application error.
///
/// `Validation` marks a rejected input (a missing host or file path);
/// `ConnectionNotFound` a lookup of an id with no stored metadata;
/// `DuplicateId` a registration under an id that is already stored;
/// `DatabaseConnection` / `RedisConnection` an unreachable backend at
/// connect time; `DatabaseQuery` / `RedisOperation` a failed call against
/// an otherwise live pool; `UnsupportedDatabaseType` a recognized backend
/// kind with no adapter; `UnsafeSql` a statement with a forbidden keyword;
/// `ExternalService` a failure of a collaborating service.
#[derive(Debug)]
pub enum AppError {
    Validation(String),
    ConnectionNotFound(String),
    DuplicateId(String),
    DatabaseConnection(String),
    RedisConnection(String),
    DatabaseQuery(String),
    RedisOperation(String),
    UnsupportedDatabaseType(String),
    UnsafeSql(String),
    ExternalService(String),
}

impl AppError {
    /// A short stable code for the error kind, usable in response envelopes.
    pub fn code(&self) -> (r: &'static str)
        ensures
            r@ == self.spec_code(),
    {
        match self {
            AppError::Validation(_) => "VALIDATION_ERROR",
            AppError::ConnectionNotFound(_) => "CONNECTION_NOT_FOUND",
            AppError::DuplicateId(_) => "DUPLICATE_ID",
            AppError::DatabaseConnection(_) => "DATABASE_CONNECTION_ERROR",
            AppError::RedisConnection(_) => "REDIS_CONNECTION_ERROR",
            AppError::DatabaseQuery(_) => "DATABASE_QUERY_ERROR",
            AppError::RedisOperation(_) => "REDIS_OPERATION_ERROR",
            AppError::UnsupportedDatabaseType(_) => "UNSUPPORTED_DATABASE_TYPE",
            AppError::UnsafeSql(_) => "UNSAFE_SQL",
            AppError::ExternalService(_) => "EXTERNAL_SERVICE_ERROR",
        }
    }

    /// The code each variant maps to.
    pub open spec fn spec_code(self) -> Seq<char> {
        match self {
            AppError::Validation(_) => "VALIDATION_ERROR"@,
            AppError::ConnectionNotFound(_) => "CONNECTION_NOT_FOUND"@,
            AppError::DuplicateId(_) => "DUPLICATE_ID"@,
            AppError::DatabaseConnection(_) => "DATABASE_CONNECTION_ERROR"@,
            AppError::RedisConnection(_) => "REDIS_CONNECTION_ERROR"@,
            AppError::DatabaseQuery(_) => "DATABASE_QUERY_ERROR"@,
            AppError::RedisOperation(_) => "REDIS_OPERATION_ERROR"@,
            AppError::UnsupportedDatabaseType(_) => "UNSUPPORTED_DATABASE_TYPE"@,
            AppError::UnsafeSql(_) => "UNSAFE_SQL"@,
            AppError::ExternalService(_) => "EXTERNAL_SERVICE_ERROR"@,
        }
    }

    /// The message carried by the error.
    pub fn message(&self) -> (r: &String)
        ensures
            r == self.spec_message(),
    {
        match self {
            AppError::Validation(m) => m,
            AppError::ConnectionNotFound(m) => m,
            AppError::DuplicateId(m) => m,
            AppError::DatabaseConnection(m) => m,
            AppError::RedisConnection(m) => m,
            AppError::DatabaseQuery(m) => m,
            AppError::RedisOperation(m) => m,
            AppError::UnsupportedDatabaseType(m) => m,
            AppError::UnsafeSql(m) => m,
            AppError::ExternalService(m) => m,
        }
    }

    /// The message each variant carries.
    pub open spec fn spec_message(self) -> String {
        match self {
            AppError::Validation(m) => m,
            AppError::ConnectionNotFound(m) => m,
            AppError::DuplicateId(m) => m,
            AppError::DatabaseConnection(m) => m,
            AppError::RedisConnection(m) => m,
            AppError::DatabaseQuery(m) => m,
            AppError::RedisOperation(m) => m,
            AppError::UnsupportedDatabaseType(m) => m,
            AppError::UnsafeSql(m) => m,
            AppError::ExternalService(m) => m,
        }
    }
}

/// Result alias used throughout the library.
pub type AppResult<T> = Result<T, AppError>;

} // verus!

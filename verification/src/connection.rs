//! Connection configuration models.
//!
//! A `ConnectionConfig` is the persisted record describing how to reach one
//! database instance; a `ConnectionItem` is its outward projection with the
//! password excluded.

use vstd::prelude::*;
use crate::db_type::DbType;
use crate::text::{chars_vec, chars_to_string, lower_chars, str_eq, to_lower};

verus! {

/// Clones an optional string, preserving its value.
pub fn clone_opt_string(o: &Option<String>) -> (r: Option<String>)
    ensures
        r == *o,
{
    match o {
        Some(s) => Some(s.clone()),
        None => None,
    }
}

/// Full connection configuration (stored internally).
///
/// The `id` is unique among stored configurations and immutable after
/// creation. The `password` is held here but excluded from every outward
/// projection.
pub struct ConnectionConfig {
    /// Unique connection identifier.
    pub id: String,
    /// Connection display name.
    pub name: String,
    /// Database type.
    pub db_type: DbType,
    /// Database host (for network databases).
    pub host: Option<String>,
    /// Database port (for network databases).
    pub port: Option<u16>,
    /// Database username.
    pub username: Option<String>,
    /// Database password (never carried into outward projections).
    pub password: Option<String>,
    /// Default database name.
    pub database: Option<String>,
    /// SQLite file path.
    pub file_path: Option<String>,
    /// Creation timestamp.
    pub created_at: String,
}

impl Clone for ConnectionConfig {
    fn clone(&self) -> (r: Self)
        ensures
            r == *self,
    {
        ConnectionConfig {
            id: self.id.clone(),
            name: self.name.clone(),
            db_type: self.db_type,
            host: clone_opt_string(&self.host),
            port: self.port,
            username: clone_opt_string(&self.username),
            password: clone_opt_string(&self.password),
            database: clone_opt_string(&self.database),
            file_path: clone_opt_string(&self.file_path),
            created_at: self.created_at.clone(),
        }
    }
}

/// Request body for creating a new connection.
pub struct CreateConnectionRequest {
    /// Connection display name (1 to 100 characters).
    pub name: String,
    /// Database type.
    pub db_type: DbType,
    /// Database host (required for network backends).
    pub host: Option<String>,
    /// Database port (backend default when absent).
    pub port: Option<u16>,
    /// Database username.
    pub username: Option<String>,
    /// Database password.
    pub password: Option<String>,
    /// Default database name.
    pub database: Option<String>,
    /// SQLite file path (required for embedded-file backends).
    pub file_path: Option<String>,
}

impl CreateConnectionRequest {
    /// Whether the request passes registration validation.
    pub open spec fn spec_valid(self) -> bool {
        1 <= self.name@.len() <= 100
    }

    /// Checks the request against registration rules: the name must be
    /// 1 to 100 characters long.
    pub fn validate(&self) -> (r: Result<(), crate::errors::AppError>)
        ensures
            r is Ok <==> self.spec_valid(),
            r matches Err(e) ==> e is Validation,
    {
        let n = self.name.as_str().unicode_len();
        if 1 <= n && n <= 100 {
            Ok(())
        } else {
            Err(crate::errors::AppError::Validation(
                "Name must be 1-100 characters".to_owned(),
            ))
        }
    }

    /// Converts the request into a ConnectionConfig, filling the backend's
    /// default port when none was given.
    pub fn into_config(self, id: String, created_at: String) -> (r: ConnectionConfig)
        ensures
            r.id == id,
            r.name == self.name,
            r.db_type == self.db_type,
            r.host == self.host,
            r.port == (if self.port is Some {
                self.port
            } else {
                self.db_type.spec_default_port()
            }),
            r.username == self.username,
            r.password == self.password,
            r.database == self.database,
            r.file_path == self.file_path,
            r.created_at == created_at,
    {
        let port = match self.port {
            Some(p) => Some(p),
            None => self.db_type.default_port(),
        };
        ConnectionConfig {
            id,
            name: self.name,
            db_type: self.db_type,
            host: self.host,
            port,
            username: self.username,
            password: self.password,
            database: self.database,
            file_path: self.file_path,
            created_at,
        }
    }
}

/// Connection item for outward responses: every field of the stored
/// configuration except the password.
pub struct ConnectionItem {
    /// Unique connection identifier.
    pub id: String,
    /// Connection display name.
    pub name: String,
    /// Database type.
    pub db_type: DbType,
    /// Database host.
    pub host: Option<String>,
    /// Database port.
    pub port: Option<u16>,
    /// Database username.
    pub username: Option<String>,
    /// Default database name.
    pub database: Option<String>,
    /// SQLite file path.
    pub file_path: Option<String>,
    /// Creation timestamp.
    pub created_at: String,
}

impl From<ConnectionConfig> for ConnectionItem {
    /// Projects a stored configuration to its outward summary, dropping the
    /// password.
    fn from(config: ConnectionConfig) -> (r: Self) {
        ConnectionItem {
            id: config.id,
            name: config.name,
            db_type: config.db_type,
            host: config.host,
            port: config.port,
            username: config.username,
            database: config.database,
            file_path: config.file_path,
            created_at: config.created_at,
        }
    }
}

impl vstd::std_specs::convert::FromSpecImpl<ConnectionConfig> for ConnectionItem {
    open spec fn obeys_from_spec() -> bool {
        true
    }

    open spec fn from_spec(config: ConnectionConfig) -> Self {
        ConnectionItem {
            id: config.id,
            name: config.name,
            db_type: config.db_type,
            host: config.host,
            port: config.port,
            username: config.username,
            database: config.database,
            file_path: config.file_path,
            created_at: config.created_at,
        }
    }
}

/// Row shape of the `connections` table, with every nullable column plain.
pub struct ConnectionRow {
    pub id: String,
    pub name: String,
    pub db_type: String,
    pub host: Option<String>,
    pub port: Option<u16>,
    pub username: Option<String>,
    pub password: Option<String>,
    pub database_name: Option<String>,
    pub file_path: Option<String>,
    pub created_at: String,
}

impl ConnectionRow {
    /// Converts a stored row back into a configuration, parsing the backend
    /// kind from its label.
    pub fn into_config(self) -> (r: ConnectionConfig)
        ensures
            r.id == self.id,
            r.name == self.name,
            r.db_type == spec_parse_db_type(self.db_type@),
            r.host == self.host,
            r.port == self.port,
            r.username == self.username,
            r.password == self.password,
            r.database == self.database_name,
            r.file_path == self.file_path,
            r.created_at == self.created_at,
    {
        let db_type = parse_db_type(self.db_type.as_str());
        ConnectionConfig {
            id: self.id,
            name: self.name,
            db_type,
            host: self.host,
            port: self.port,
            username: self.username,
            password: self.password,
            database: self.database_name,
            file_path: self.file_path,
            created_at: self.created_at,
        }
    }
}

/// The backend kind named by `s`, compared case-insensitively; an unknown
/// label falls back to MySQL.
pub open spec fn spec_parse_db_type(s: Seq<char>) -> DbType {
    let l = to_lower(s);
    if l == "mysql"@ {
        DbType::MySQL
    } else if l == "postgres"@ {
        DbType::Postgres
    } else if l == "sqlite"@ {
        DbType::SQLite
    } else if l == "redis"@ {
        DbType::Redis
    } else if l == "mongodb"@ {
        DbType::MongoDB
    } else if l == "clickhouse"@ {
        DbType::ClickHouse
    } else if l == "elasticsearch"@ {
        DbType::Elasticsearch
    } else if l == "oracle"@ {
        DbType::Oracle
    } else if l == "sqlserver"@ {
        DbType::SqlServer
    } else if l == "mariadb"@ {
        DbType::MariaDB
    } else if l == "cassandra"@ {
        DbType::Cassandra
    } else if l == "influxdb"@ {
        DbType::InfluxDB
    } else if l == "db2"@ {
        DbType::DB2
    } else if l == "couchdb"@ {
        DbType::CouchDB
    } else if l == "neo4j"@ {
        DbType::Neo4j
    } else if l == "memcached"@ {
        DbType::Memcached
    } else if l == "hbase"@ {
        DbType::HBase
    } else if l == "milvus"@ {
        DbType::Milvus
    } else {
        DbType::MySQL
    }
}

/// Parses a backend-kind label, case-insensitively; an unknown label falls
/// back to MySQL.
pub fn parse_db_type(s: &str) -> (r: DbType)
    ensures
        r == spec_parse_db_type(s@),
{
    let v = chars_vec(s);
    let low = lower_chars(v.as_slice());
    let ls = chars_to_string(low.as_slice());
    let l = ls.as_str();
    if str_eq(l, "mysql") {
        DbType::MySQL
    } else if str_eq(l, "postgres") {
        DbType::Postgres
    } else if str_eq(l, "sqlite") {
        DbType::SQLite
    } else if str_eq(l, "redis") {
        DbType::Redis
    } else if str_eq(l, "mongodb") {
        DbType::MongoDB
    } else if str_eq(l, "clickhouse") {
        DbType::ClickHouse
    } else if str_eq(l, "elasticsearch") {
        DbType::Elasticsearch
    } else if str_eq(l, "oracle") {
        DbType::Oracle
    } else if str_eq(l, "sqlserver") {
        DbType::SqlServer
    } else if str_eq(l, "mariadb") {
        DbType::MariaDB
    } else if str_eq(l, "cassandra") {
        DbType::Cassandra
    } else if str_eq(l, "influxdb") {
        DbType::InfluxDB
    } else if str_eq(l, "db2") {
        DbType::DB2
    } else if str_eq(l, "couchdb") {
        DbType::CouchDB
    } else if str_eq(l, "neo4j") {
        DbType::Neo4j
    } else if str_eq(l, "memcached") {
        DbType::Memcached
    } else if str_eq(l, "hbase") {
        DbType::HBase
    } else if str_eq(l, "milvus") {
        DbType::Milvus
    } else {
        DbType::MySQL
    }
}

} // verus!

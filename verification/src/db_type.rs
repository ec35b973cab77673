//! Backend kinds recognized in connection configurations.

use vstd::prelude::*;

verus! {

/// A database backend kind.
///
/// The first four kinds have adapters (connect, ping, introspection); the
/// remaining kinds are recognized in configurations but unimplemented, so a
/// connection of such a kind is stored successfully while every pool-backed
/// operation on it reports `UnsupportedDatabaseType`.
#[derive(Clone, Copy, PartialEq, Eq, Structural, Debug)]
pub enum DbType {
    MySQL,
    Postgres,
    SQLite,
    Redis,
    MongoDB,
    ClickHouse,
    Elasticsearch,
    Oracle,
    SqlServer,
    MariaDB,
    Cassandra,
    InfluxDB,
    DB2,
    CouchDB,
    Neo4j,
    Memcached,
    HBase,
    Milvus,
}

impl DbType {
    /// Whether an adapter exists for this kind.
    pub open spec fn spec_supported(self) -> bool {
        self == DbType::MySQL || self == DbType::Postgres || self == DbType::SQLite
            || self == DbType::Redis
    }

    /// Whether an adapter exists for this kind.
    pub fn supported(&self) -> (r: bool)
        ensures
            r == self.spec_supported(),
    {
        match self {
            DbType::MySQL | DbType::Postgres | DbType::SQLite | DbType::Redis => true,
            _ => false,
        }
    }

    /// The standard port of each networked backend kind with an adapter.
    pub open spec fn spec_default_port(self) -> Option<u16> {
        match self {
            DbType::MySQL => Some(3306u16),
            DbType::Postgres => Some(5432u16),
            DbType::SQLite => None,
            DbType::Redis => Some(6379u16),
            _ => None,
        }
    }

    /// Returns the default port for this database type.
    pub fn default_port(&self) -> (r: Option<u16>)
        ensures
            r == self.spec_default_port(),
    {
        match self {
            DbType::MySQL => Some(3306),
            DbType::Postgres => Some(5432),
            DbType::Redis => Some(6379),
            _ => None,
        }
    }

    /// The lowercase label of each kind, as stored in the `db_type` column.
    pub open spec fn spec_label(self) -> Seq<char> {
        match self {
            DbType::MySQL => "mysql"@,
            DbType::Postgres => "postgres"@,
            DbType::SQLite => "sqlite"@,
            DbType::Redis => "redis"@,
            DbType::MongoDB => "mongodb"@,
            DbType::ClickHouse => "clickhouse"@,
            DbType::Elasticsearch => "elasticsearch"@,
            DbType::Oracle => "oracle"@,
            DbType::SqlServer => "sqlserver"@,
            DbType::MariaDB => "mariadb"@,
            DbType::Cassandra => "cassandra"@,
            DbType::InfluxDB => "influxdb"@,
            DbType::DB2 => "db2"@,
            DbType::CouchDB => "couchdb"@,
            DbType::Neo4j => "neo4j"@,
            DbType::Memcached => "memcached"@,
            DbType::HBase => "hbase"@,
            DbType::Milvus => "milvus"@,
        }
    }

    /// The lowercase label of this kind, as stored in the `db_type` column.
    pub fn as_label(&self) -> (r: &'static str)
        ensures
            r@ == self.spec_label(),
    {
        match self {
            DbType::MySQL => "mysql",
            DbType::Postgres => "postgres",
            DbType::SQLite => "sqlite",
            DbType::Redis => "redis",
            DbType::MongoDB => "mongodb",
            DbType::ClickHouse => "clickhouse",
            DbType::Elasticsearch => "elasticsearch",
            DbType::Oracle => "oracle",
            DbType::SqlServer => "sqlserver",
            DbType::MariaDB => "mariadb",
            DbType::Cassandra => "cassandra",
            DbType::InfluxDB => "influxdb",
            DbType::DB2 => "db2",
            DbType::CouchDB => "couchdb",
            DbType::Neo4j => "neo4j",
            DbType::Memcached => "memcached",
            DbType::HBase => "hbase",
            DbType::Milvus => "milvus",
        }
    }
}

} // verus!

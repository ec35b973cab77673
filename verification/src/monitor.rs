//! Monitoring and statistics models.
//!
//! Every snapshot field defaults to a neutral zero/unset value when a
//! backend does not expose it, so a reading is never partially missing in a
//! way that misrepresents availability.

use vstd::prelude::*;

verus! {

/// One name/value pair of backend introspection output.
pub struct NameValue {
    /// Variable or metric name.
    pub name: String,
    /// Its raw textual value.
    pub value: String,
}

impl Clone for NameValue {
    fn clone(&self) -> (r: Self)
        ensures
            r == *self,
    {
        NameValue { name: self.name.clone(), value: self.value.clone() }
    }
}

/// Database server statistics, normalized across backend kinds.
///
/// `queries_per_second` is the integer quotient `total_queries /
/// uptime_seconds`, and zero while the uptime is unknown.
pub struct DatabaseStats {
    /// Server uptime in seconds.
    pub uptime_seconds: u64,
    /// Total queries executed since startup.
    pub total_queries: u64,
    /// Total active connections.
    pub active_connections: u32,
    /// Maximum allowed connections.
    pub max_connections: u32,
    /// Total slow queries since startup.
    pub slow_queries: u64,
    /// Queries per second (derived).
    pub queries_per_second: u64,
    /// Bytes received total.
    pub bytes_received: u64,
    /// Bytes sent total.
    pub bytes_sent: u64,
    /// Buffer pool size in bytes, where the backend reports one.
    pub buffer_pool_size: Option<u64>,
    /// Database server version.
    pub server_version: Option<String>,
    /// Additional key-value metrics.
    pub extra: Vec<NameValue>,
}

impl DatabaseStats {
    /// Whether this is the all-zero, all-unset snapshot.
    pub open spec fn is_default(self) -> bool {
        &&& self.uptime_seconds == 0
        &&& self.total_queries == 0
        &&& self.active_connections == 0
        &&& self.max_connections == 0
        &&& self.slow_queries == 0
        &&& self.queries_per_second == 0
        &&& self.bytes_received == 0
        &&& self.bytes_sent == 0
        &&& self.buffer_pool_size is None
        &&& self.server_version is None
        &&& self.extra@ == Seq::<NameValue>::empty()
    }
}

impl Default for DatabaseStats {
    /// Every counter zero, every optional field unset.
    fn default() -> (r: Self)
        ensures
            r.uptime_seconds == 0,
            r.total_queries == 0,
            r.active_connections == 0,
            r.max_connections == 0,
            r.slow_queries == 0,
            r.queries_per_second == 0,
            r.bytes_received == 0,
            r.bytes_sent == 0,
            r.buffer_pool_size is None,
            r.server_version is None,
            r.extra@ == Seq::<NameValue>::empty(),
    {
        DatabaseStats {
            uptime_seconds: 0,
            total_queries: 0,
            active_connections: 0,
            max_connections: 0,
            slow_queries: 0,
            queries_per_second: 0,
            bytes_received: 0,
            bytes_sent: 0,
            buffer_pool_size: None,
            server_version: None,
            extra: Vec::new(),
        }
    }
}

/// Active database process information.
pub struct ProcessInfo {
    /// Process ID.
    pub id: u64,
    /// User running the process.
    pub user: String,
    /// Client host.
    pub host: String,
    /// Database being accessed.
    pub db: Option<String>,
    /// Command type (Query, Sleep, and the like).
    pub command: String,
    /// Time in seconds the process has been running.
    pub time: u64,
    /// Current state.
    pub state: Option<String>,
    /// Statement text, where available.
    pub info: Option<String>,
}

/// Database information on the server.
pub struct DatabaseInfo {
    /// Database name.
    pub name: String,
    /// Number of tables.
    pub tables_count: u32,
    /// Size in whole megabytes.
    pub size_mb: u64,
}

/// Connection pool statistics.
#[derive(Clone, Copy, PartialEq, Eq, Structural, Debug)]
pub struct ConnectionPoolStats {
    /// Number of active (in-use) connections.
    pub active: u32,
    /// Number of idle connections.
    pub idle: u32,
    /// Maximum pool size configured.
    pub max_size: u32,
    /// Whether the pool is connected.
    pub is_connected: bool,
}

/// Aggregated monitoring overview for a single connection.
pub struct MonitorOverview {
    /// Connection ID.
    pub connection_id: String,
    /// Connection name.
    pub connection_name: String,
    /// Database type label.
    pub db_type: String,
    /// Database server statistics.
    pub stats: DatabaseStats,
    /// Connection pool statistics.
    pub pool: ConnectionPoolStats,
    /// Timestamp of this snapshot.
    pub timestamp: String,
}

} // verus!

use dbpool::connection::ConnectionConfig;
use dbpool::db_type::DbType;
use dbpool::errors::AppError;
use dbpool::health::{aggregated_health, check_service_health, ProbeOutcome, ServiceHealth};
use dbpool::monitor::NameValue;
use dbpool::query::{default_limit, DatabaseItem, QueryRequest, QueryResult};
use dbpool::response::{ConnectionTestResult, Pagination, PoolInfo};
use dbpool::stats::{
    database_from_row, mysql_process_from_row, mysql_stats_from_status, postgres_process_from_row,
    postgres_stats_from_parts, queries_per_second, redis_stats_from_info, RawDatabaseRow,
    RawMySqlProcess, RawPgProcess,
};

fn nv(name: &str, value: &str) -> NameValue {
    NameValue { name: String::from(name), value: String::from(value) }
}

#[test]
fn test_queries_per_second_formula() {
    // zero whenever the uptime is zero, the exact quotient otherwise
    assert_eq!(queries_per_second(12345, 0), 0);
    assert_eq!(queries_per_second(0, 100), 0);
    assert_eq!(queries_per_second(100, 10), 10);
    assert_eq!(queries_per_second(99, 10), 9);
    assert_eq!(queries_per_second(1, 3), 0);
}

#[test]
fn test_mysql_stats_translation() {
    let status = vec![
        nv("Uptime", "10"),
        nv("Questions", "100"),
        nv("Queries", "80"),
        nv("Threads_connected", "7"),
        nv("Slow_queries", "3"),
        nv("Bytes_received", "1111"),
        nv("Bytes_sent", "2222"),
        nv("Innodb_buffer_pool_pages_total", "2"),
        nv("Something_else", "999"),
    ];
    let vars = vec![nv("max_connections", "151"), nv("version", "8.0.36")];
    let s = mysql_stats_from_status(&status, &vars);
    assert_eq!(s.uptime_seconds, 10);
    // the larger of the overlapping counters wins
    assert_eq!(s.total_queries, 100);
    assert_eq!(s.active_connections, 7);
    assert_eq!(s.slow_queries, 3);
    assert_eq!(s.bytes_received, 1111);
    assert_eq!(s.bytes_sent, 2222);
    assert_eq!(s.buffer_pool_size, Some(2 * 16384));
    assert_eq!(s.max_connections, 151);
    assert_eq!(s.server_version.as_deref(), Some("MySQL 8.0.36"));
    assert_eq!(s.queries_per_second, 10);
    assert!(s.extra.is_empty());
}

#[test]
fn test_mysql_stats_prefers_larger_alias() {
    let status = vec![nv("Questions", "50"), nv("Queries", "150")];
    let s = mysql_stats_from_status(&status, &vec![]);
    assert_eq!(s.total_queries, 150);
    // a malformed or overflowing counter reads as zero and never wins
    let status2 = vec![nv("Questions", "42"), nv("Queries", "abc"),
        nv("Queries", "18446744073709551616")];
    let s2 = mysql_stats_from_status(&status2, &vec![]);
    assert_eq!(s2.total_queries, 42);
    // zero uptime keeps the rate at zero
    assert_eq!(s2.queries_per_second, 0);
}

#[test]
fn test_redis_info_translation() {
    let info = "# Server\r\nredis_version:7.2.4\r\nuptime_in_seconds:100\r\n\
                connected_clients:5\r\nmaxclients:10000\r\n\
                total_commands_processed:1000\r\nused_memory:4096\r\nnonsense line\r\n";
    let s = redis_stats_from_info(info);
    assert_eq!(s.uptime_seconds, 100);
    assert_eq!(s.active_connections, 5);
    assert_eq!(s.max_connections, 10000);
    assert_eq!(s.total_queries, 1000);
    assert_eq!(s.buffer_pool_size, Some(4096));
    assert_eq!(s.server_version.as_deref(), Some("Redis 7.2.4"));
    assert_eq!(s.queries_per_second, 10);
    assert_eq!(s.bytes_received, 0);
}

#[test]
fn test_redis_info_empty_blob() {
    let s = redis_stats_from_info("");
    assert_eq!(s.uptime_seconds, 0);
    assert_eq!(s.queries_per_second, 0);
    assert!(s.server_version.is_none());
}

#[test]
fn test_postgres_stats_assembly() {
    let s = postgres_stats_from_parts(
        Some(String::from("16.2")),
        Some(12),
        Some(String::from("100")),
        Some(5000),
        Some(500),
    );
    assert_eq!(s.server_version.as_deref(), Some("PostgreSQL 16.2"));
    assert_eq!(s.active_connections, 12);
    assert_eq!(s.max_connections, 100);
    assert_eq!(s.total_queries, 5000);
    assert_eq!(s.uptime_seconds, 500);
    assert_eq!(s.queries_per_second, 10);
}

#[test]
fn test_postgres_stats_defaults_and_clamps() {
    // a failed reading leaves its field at the default; negative readings
    // clamp to zero
    let s = postgres_stats_from_parts(None, Some(-3), None, Some(-1), None);
    assert!(s.server_version.is_none());
    assert_eq!(s.active_connections, 0);
    assert_eq!(s.max_connections, 0);
    assert_eq!(s.total_queries, 0);
    assert_eq!(s.uptime_seconds, 0);
    assert_eq!(s.queries_per_second, 0);
}

#[test]
fn test_pagination_new() {
    let p = Pagination::new(1, 10, 25);
    assert_eq!(p.total_pages, 3);
    assert!(p.has_next);
    assert!(!p.has_prev);
    let q = Pagination::new(3, 10, 30);
    assert_eq!(q.total_pages, 3);
    assert!(!q.has_next);
    assert!(q.has_prev);
    let r = Pagination::new(1, 10, 0);
    assert_eq!(r.total_pages, 0);
    assert!(!r.has_next);
}

#[test]
fn test_query_models() {
    assert_eq!(default_limit(), Some(1000));
    let empty = QueryResult::empty();
    assert_eq!(empty.row_count, 0);
    assert!(empty.affected_rows.is_none());
    let aff = QueryResult::affected(7, 12);
    assert_eq!(aff.affected_rows, Some(7));
    assert_eq!(aff.execution_time_ms, 12);

    let bad = QueryRequest {
        connection_id: String::new(),
        sql: String::from("SELECT 1"),
        limit: default_limit(),
    };
    assert!(matches!(bad.validate(), Err(AppError::Validation(_))));
    let ok = QueryRequest {
        connection_id: String::from("c1"),
        sql: String::from("SELECT 1"),
        limit: None,
    };
    assert!(ok.validate().is_ok());

    let item = DatabaseItem::new(1, "main", "mysql", "localhost", 3306);
    assert_eq!(item.name, "main");
    assert_eq!(item.port, 3306);
}

#[test]
fn test_connection_test_result() {
    let ok = ConnectionTestResult::passed(String::from("c1"), 42);
    assert!(ok.success);
    assert_eq!(ok.latency_ms, Some(42));
    assert!(ok.error.is_none());
    let bad = ConnectionTestResult::failed(String::from("c1"), String::from("boom"));
    assert!(!bad.success);
    assert_eq!(bad.error.as_deref(), Some("boom"));
}

#[test]
fn test_pool_info_excludes_secrets() {
    let c = ConnectionConfig {
        id: String::from("c9"),
        name: String::from("n"),
        db_type: DbType::Redis,
        host: Some(String::from("h")),
        port: Some(6380),
        username: Some(String::from("user")),
        password: Some(String::from("secret")),
        database: Some(String::from("0")),
        file_path: None,
        created_at: String::from("t"),
    };
    let info = PoolInfo::of_config(&c);
    assert_eq!(info.id, "c9");
    assert_eq!(info.db_type, "redis");
    assert_eq!(info.host.as_deref(), Some("h"));
    assert_eq!(info.port, Some(6380));
    assert_eq!(info.database.as_deref(), Some("0"));
}

#[test]
fn test_health_aggregation() {
    let ok = check_service_health(String::from("a"), String::from("u1"), ProbeOutcome::Response(200));
    assert!(ok.healthy);
    assert!(ok.error.is_none());
    let http = check_service_health(String::from("b"), String::from("u2"), ProbeOutcome::Response(503));
    assert!(!http.healthy);
    assert_eq!(http.error.as_deref(), Some("HTTP 503"));
    let down = check_service_health(
        String::from("c"),
        String::from("u3"),
        ProbeOutcome::Unreachable(String::from("timed out")),
    );
    assert_eq!(down.error.as_deref(), Some("timed out"));

    let all: Vec<ServiceHealth> = vec![
        check_service_health(String::from("a"), String::from("u1"), ProbeOutcome::Response(204)),
    ];
    let agg = aggregated_health(all);
    assert_eq!(agg.status, "healthy");
    assert!(!agg.timestamp.is_empty());

    let mixed = vec![
        check_service_health(String::from("a"), String::from("u1"), ProbeOutcome::Response(200)),
        check_service_health(String::from("b"), String::from("u2"), ProbeOutcome::Response(500)),
    ];
    let agg2 = aggregated_health(mixed);
    assert_eq!(agg2.status, "degraded");
    assert_eq!(agg2.services.len(), 2);
}

#[test]
fn test_error_codes() {
    assert_eq!(AppError::Validation(String::new()).code(), "VALIDATION_ERROR");
    assert_eq!(AppError::ConnectionNotFound(String::new()).code(), "CONNECTION_NOT_FOUND");
    assert_eq!(AppError::DatabaseConnection(String::new()).code(), "DATABASE_CONNECTION_ERROR");
    assert_eq!(AppError::RedisConnection(String::new()).code(), "REDIS_CONNECTION_ERROR");
    assert_eq!(AppError::DatabaseQuery(String::new()).code(), "DATABASE_QUERY_ERROR");
    assert_eq!(AppError::RedisOperation(String::new()).code(), "REDIS_OPERATION_ERROR");
    assert_eq!(
        AppError::UnsupportedDatabaseType(String::new()).code(),
        "UNSUPPORTED_DATABASE_TYPE"
    );
    assert_eq!(AppError::UnsafeSql(String::new()).code(), "UNSAFE_SQL");
    assert_eq!(AppError::ExternalService(String::new()).code(), "EXTERNAL_SERVICE_ERROR");
    assert_eq!(AppError::DuplicateId(String::from("x")).message(), "x");
}

#[test]
fn test_process_row_defaults() {
    let m = mysql_process_from_row(RawMySqlProcess {
        id: None,
        user: None,
        host: None,
        db: None,
        command: None,
        time: Some(5),
        state: Some(String::from("running")),
        info: None,
    });
    assert_eq!(m.id, 0);
    assert_eq!(m.user, "");
    assert_eq!(m.time, 5);
    assert_eq!(m.state.as_deref(), Some("running"));

    let p = postgres_process_from_row(RawPgProcess {
        pid: Some(-4),
        usename: Some(String::from("pg")),
        client_addr: None,
        datname: None,
        state: None,
        query: Some(String::from("SELECT 1")),
        duration: Some(-10),
    });
    assert_eq!(p.id, 0);
    assert_eq!(p.host, "local");
    assert_eq!(p.command, "unknown");
    assert_eq!(p.time, 0);
    assert_eq!(p.info.as_deref(), Some("SELECT 1"));
}

#[test]
fn test_database_row_defaults() {
    let d = database_from_row(RawDatabaseRow {
        name: Some(String::from("main")),
        tables_count: Some(-2),
        size_mb: None,
    });
    assert_eq!(d.name, "main");
    assert_eq!(d.tables_count, 0);
    assert_eq!(d.size_mb, 0);
}

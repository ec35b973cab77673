use dbpool::connection::{parse_db_type, ConnectionRow, CreateConnectionRequest};
use dbpool::db_type::DbType;
use dbpool::errors::AppError;
use dbpool::pool_manager::{
    ConnectPlan, DatabasePool, ManagerConfig, PoolGauge, PoolManager, ProcessPlan, StatsPlan,
    TestPlan,
};
use dbpool::service::ConnectionService;

fn test_config() -> ManagerConfig {
    ManagerConfig { max_connections: 10, connect_timeout_secs: 5 }
}

fn sqlite_request(name: &str) -> CreateConnectionRequest {
    CreateConnectionRequest {
        name: String::from(name),
        db_type: DbType::SQLite,
        host: None,
        port: None,
        username: None,
        password: None,
        database: None,
        file_path: Some(String::from("/tmp/t.db")),
    }
}

fn postgres_request(name: &str, host: &str) -> CreateConnectionRequest {
    CreateConnectionRequest {
        name: String::from(name),
        db_type: DbType::Postgres,
        host: Some(String::from(host)),
        port: None,
        username: None,
        password: None,
        database: None,
        file_path: None,
    }
}

#[test]
fn test_create_then_get_matches() {
    // scenario: a valid creation is immediately visible, without a password
    let mut svc = ConnectionService::new(PoolManager::new(test_config()));
    let (item, plan) = svc.create(sqlite_request("local")).unwrap();
    assert!(!item.id.is_empty());
    assert_eq!(item.id.len(), 36);
    assert!(!item.created_at.is_empty());
    assert_eq!(item.name, "local");
    assert_eq!(item.db_type, DbType::SQLite);
    match plan {
        Some(ConnectPlan::SQLite { url }) => assert_eq!(url, "sqlite:/tmp/t.db?mode=rwc"),
        other => panic!("expected an embedded-file dial plan, got {:?}", other.is_some()),
    }
    let got = svc.get(&item.id).unwrap();
    assert_eq!(got.name, "local");
    assert_eq!(got.db_type, DbType::SQLite);
    assert_eq!(got.id, item.id);
}

#[test]
fn test_create_rejects_bad_name() {
    let mut svc = ConnectionService::new(PoolManager::new(test_config()));
    let mut req = sqlite_request("");
    match svc.create(req) {
        Err(AppError::Validation(_)) => {},
        _ => panic!("an empty name must be rejected"),
    }
    req = sqlite_request("x");
    req.name = "n".repeat(101);
    assert!(matches!(svc.create(req), Err(AppError::Validation(_))));
}

#[test]
fn test_unreachable_host_registers_then_heals() {
    // scenario: creation succeeds though the host is unreachable; the next
    // test re-derives a dial plan; a successful dial caches the pool
    let mut svc = ConnectionService::new(PoolManager::new(test_config()));
    let (item, plan) = svc.create(postgres_request("bad", "nosuchhost")).unwrap();
    let url = match plan {
        Some(ConnectPlan::Postgres { url, max_connections, timeout_secs }) => {
            assert_eq!(max_connections, 10);
            assert_eq!(timeout_secs, 5);
            url
        },
        _ => panic!("expected a network dial plan"),
    };
    assert_eq!(url, "postgres://postgres:@nosuchhost:5432/postgres");

    // the dial failed: nothing cached, metadata still stored
    svc.manager.complete_connect(&item.id, false);
    assert_eq!(svc.manager.get_pool(&item.id), None);
    assert!(svc.manager.connection_exists(&item.id));

    // the test path hands out a fresh dial plan (self-healing)
    match svc.test(&item.id) {
        Ok(TestPlan::ConnectThenPing(ConnectPlan::Postgres { url: u2, .. })) => {
            assert_eq!(u2, url)
        },
        _ => panic!("expected a connect-then-ping decision"),
    }

    // the host became reachable: the dial completion caches the pool
    svc.manager.complete_connect(&item.id, true);
    assert_eq!(svc.manager.get_pool(&item.id), Some(DatabasePool::Postgres));
    match svc.test(&item.id) {
        Ok(TestPlan::Ping(DatabasePool::Postgres)) => {},
        _ => panic!("expected a ping decision on the cached pool"),
    }
}

#[test]
fn test_delete_then_lookups_fail() {
    // scenario: after deletion every lookup under the id resolves to nothing
    let mut svc = ConnectionService::new(PoolManager::new(test_config()));
    let (item, _) = svc.create(postgres_request("bad", "nosuchhost")).unwrap();
    svc.manager.complete_connect(&item.id, true);
    assert!(svc.manager.get_pool(&item.id).is_some());

    svc.delete(&item.id).unwrap();
    assert!(matches!(svc.get(&item.id), Err(AppError::ConnectionNotFound(_))));
    assert!(matches!(svc.test(&item.id), Err(AppError::ConnectionNotFound(_))));
    assert_eq!(svc.manager.get_pool(&item.id), None);
    assert!(matches!(svc.delete(&item.id), Err(AppError::ConnectionNotFound(_))));
    let gauge = PoolGauge { size: 0, num_idle: 0 };
    assert!(matches!(
        svc.manager.get_monitor_overview(&item.id, None, &gauge),
        Err(AppError::ConnectionNotFound(_))
    ));
}

#[test]
fn test_duplicate_completion_observes_first() {
    // two completions for one id install exactly one pool
    let mut svc = ConnectionService::new(PoolManager::new(test_config()));
    let (item, _) = svc.create(postgres_request("p", "h")).unwrap();
    svc.manager.complete_connect(&item.id, true);
    svc.manager.complete_connect(&item.id, true);
    assert_eq!(svc.manager.get_pool(&item.id), Some(DatabasePool::Postgres));
    assert_eq!(svc.manager.connection_count(), 1);
    svc.delete(&item.id).unwrap();
    assert_eq!(svc.manager.get_pool(&item.id), None);
}

#[test]
fn test_unsupported_kind_registers_with_marker() {
    let mut svc = ConnectionService::new(PoolManager::new(test_config()));
    let mut req = postgres_request("doc", "h");
    req.db_type = DbType::MongoDB;
    let (item, plan) = svc.create(req).unwrap();
    assert!(plan.is_none());
    assert_eq!(svc.manager.get_pool(&item.id), Some(DatabasePool::Unsupported));
    assert!(matches!(svc.test(&item.id), Err(AppError::UnsupportedDatabaseType(_))));
    assert!(matches!(
        svc.manager.get_database_stats(&item.id),
        Err(AppError::UnsupportedDatabaseType(_))
    ));
}

#[test]
fn test_missing_required_field_keeps_registration() {
    // a network backend without a host registers but cannot be tested
    let mut svc = ConnectionService::new(PoolManager::new(test_config()));
    let mut req = postgres_request("nohost", "h");
    req.host = None;
    let (item, plan) = svc.create(req).unwrap();
    assert!(plan.is_none());
    assert!(svc.manager.connection_exists(&item.id));
    assert!(matches!(svc.test(&item.id), Err(AppError::Validation(_))));
}

#[test]
fn test_monitor_overview_without_pool() {
    // scenario: a connection whose pool was never created reports a
    // disconnected pool and zeroed stats, never an error
    let mut svc = ConnectionService::new(PoolManager::new(test_config()));
    let (item, _) = svc.create(postgres_request("bad", "nosuchhost")).unwrap();
    svc.manager.complete_connect(&item.id, false);
    let gauge = PoolGauge { size: 0, num_idle: 0 };
    let o = svc.manager.get_monitor_overview(&item.id, None, &gauge).unwrap();
    assert_eq!(o.connection_id, item.id);
    assert_eq!(o.connection_name, "bad");
    assert_eq!(o.db_type, "postgres");
    assert!(!o.pool.is_connected);
    assert_eq!(o.pool.active, 0);
    assert_eq!(o.stats.uptime_seconds, 0);
    assert_eq!(o.stats.total_queries, 0);
    assert_eq!(o.stats.queries_per_second, 0);
    assert!(o.stats.server_version.is_none());
    assert!(!o.timestamp.is_empty());
}

#[test]
fn test_pool_stats_shapes() {
    let mut svc = ConnectionService::new(PoolManager::new(test_config()));
    let (sq, _) = svc.create(sqlite_request("s")).unwrap();
    svc.manager.complete_connect(&sq.id, true);
    let gauge = PoolGauge { size: 1, num_idle: 1 };
    let st = svc.manager.get_pool_stats(&sq.id, &gauge);
    assert_eq!((st.active, st.idle, st.max_size, st.is_connected), (0, 1, 1, true));

    let (pg, _) = svc.create(postgres_request("p", "h")).unwrap();
    svc.manager.complete_connect(&pg.id, true);
    let gauge2 = PoolGauge { size: 7, num_idle: 3 };
    let st2 = svc.manager.get_pool_stats(&pg.id, &gauge2);
    assert_eq!((st2.active, st2.idle, st2.max_size, st2.is_connected), (4, 3, 10, true));

    // no pool cached: disconnected, never an error
    let st3 = svc.manager.get_pool_stats("unknown-id", &gauge);
    assert_eq!((st3.active, st3.idle, st3.max_size, st3.is_connected), (0, 0, 10, false));
}

#[test]
fn test_stats_and_listing_plans() {
    let mut svc = ConnectionService::new(PoolManager::new(test_config()));
    let (sq, _) = svc.create(sqlite_request("s")).unwrap();
    svc.manager.complete_connect(&sq.id, true);
    match svc.manager.get_database_stats(&sq.id) {
        Ok(StatsPlan::Ready(s)) => {
            assert_eq!(s.server_version.as_deref(), Some("SQLite (embedded)"));
            assert_eq!(s.uptime_seconds, 0);
        },
        _ => panic!("embedded stats must be ready"),
    }
    match svc.manager.get_processes(&sq.id) {
        Ok(ProcessPlan::Ready(v)) => assert!(v.is_empty()),
        _ => panic!("no process facility: empty list expected"),
    }
    assert!(matches!(
        svc.manager.get_database_stats("nope"),
        Err(AppError::ConnectionNotFound(_))
    ));

    let (pg, _) = svc.create(postgres_request("p", "h")).unwrap();
    svc.manager.complete_connect(&pg.id, true);
    assert!(matches!(svc.manager.get_database_stats(&pg.id), Ok(StatsPlan::FetchPostgres)));
}

#[test]
fn test_list_is_newest_first() {
    let mut svc = ConnectionService::new(PoolManager::new(test_config()));
    let (a, _) = svc.create(sqlite_request("first")).unwrap();
    let (b, _) = svc.create(sqlite_request("second")).unwrap();
    let listed = svc.list();
    assert_eq!(listed.len(), 2);
    assert_eq!(listed[0].id, b.id);
    assert_eq!(listed[1].id, a.id);
    assert_eq!(listed[0].name, "second");
}

#[test]
fn test_url_defaults_and_password() {
    let mgr = PoolManager::new(test_config());
    let row = ConnectionRow {
        id: String::from("i1"),
        name: String::from("m"),
        db_type: String::from("MySQL"),
        host: Some(String::from("db.example")),
        port: Some(3307),
        username: Some(String::from("u")),
        password: Some(String::from("pw")),
        database_name: Some(String::from("d")),
        file_path: None,
        created_at: String::from("2024-01-01 00:00:00"),
    };
    let config = row.into_config();
    assert_eq!(config.db_type, DbType::MySQL);
    match mgr.try_create_pool(&config) {
        Ok(ConnectPlan::MySQL { url, .. }) => assert_eq!(url, "mysql://u:pw@db.example:3307/d"),
        _ => panic!("expected a MySQL plan"),
    }

    let mut redis_cfg = config.clone();
    redis_cfg.db_type = DbType::Redis;
    redis_cfg.port = None;
    match mgr.try_create_pool(&redis_cfg) {
        Ok(ConnectPlan::Redis { url }) => assert_eq!(url, "redis://:pw@db.example:6379"),
        _ => panic!("expected a Redis plan"),
    }
    redis_cfg.password = None;
    match mgr.try_create_pool(&redis_cfg) {
        Ok(ConnectPlan::Redis { url }) => assert_eq!(url, "redis://db.example:6379"),
        _ => panic!("expected a Redis plan"),
    }
}

#[test]
fn test_parse_db_type_labels() {
    assert_eq!(parse_db_type("MYSQL"), DbType::MySQL);
    assert_eq!(parse_db_type("postgres"), DbType::Postgres);
    assert_eq!(parse_db_type("SQLite"), DbType::SQLite);
    assert_eq!(parse_db_type("redis"), DbType::Redis);
    assert_eq!(parse_db_type("clickhouse"), DbType::ClickHouse);
    // an unknown label falls back to MySQL
    assert_eq!(parse_db_type("nosuchdb"), DbType::MySQL);
}

#[test]
fn test_default_ports() {
    assert_eq!(DbType::MySQL.default_port(), Some(3306));
    assert_eq!(DbType::Postgres.default_port(), Some(5432));
    assert_eq!(DbType::Redis.default_port(), Some(6379));
    assert_eq!(DbType::SQLite.default_port(), None);
    assert_eq!(DbType::MongoDB.default_port(), None);
}

//! Translation of backend-specific introspection output into the common
//! statistics schema.
//!
//! Policy: a missing or malformed metric stays at its zero/unset default and
//! never aborts the rest of the reading; `queries_per_second` is derived as
//! `total_queries / uptime_seconds` when the uptime is positive, else zero.

use vstd::prelude::*;
use vstd::string::StringExecFns;
use crate::monitor::{DatabaseStats, NameValue, ProcessInfo, DatabaseInfo};
use crate::text::{chars_vec, chars_to_string, find_char_range, find_idx, find_idx_le,
    lemma_find_idx, parse_u64_or_zero, parse_u32_or_zero, parse_or_zero, str_eq, subrange_vec,
    trimmed, trim_chars};

verus! {

/// The mathematical content of a `DatabaseStats` value (the `extra` list is
/// tracked separately and stays empty in every aggregation here).
pub struct StatsView {
    pub uptime_seconds: u64,
    pub total_queries: u64,
    pub active_connections: u32,
    pub max_connections: u32,
    pub slow_queries: u64,
    pub queries_per_second: u64,
    pub bytes_received: u64,
    pub bytes_sent: u64,
    pub buffer_pool_size: Option<u64>,
    pub server_version: Option<Seq<char>>,
}

/// The view of a stats value.
pub open spec fn stats_view(s: DatabaseStats) -> StatsView {
    StatsView {
        uptime_seconds: s.uptime_seconds,
        total_queries: s.total_queries,
        active_connections: s.active_connections,
        max_connections: s.max_connections,
        slow_queries: s.slow_queries,
        queries_per_second: s.queries_per_second,
        bytes_received: s.bytes_received,
        bytes_sent: s.bytes_sent,
        buffer_pool_size: s.buffer_pool_size,
        server_version: match s.server_version {
            Some(v) => Some(v@),
            None => None,
        },
    }
}

/// The all-zero, all-unset view.
pub open spec fn default_view() -> StatsView {
    StatsView {
        uptime_seconds: 0u64,
        total_queries: 0u64,
        active_connections: 0u32,
        max_connections: 0u32,
        slow_queries: 0u64,
        queries_per_second: 0u64,
        bytes_received: 0u64,
        bytes_sent: 0u64,
        buffer_pool_size: None,
        server_version: None,
    }
}

// ---- queries per second ----

/// The derived query rate: zero while the uptime is unknown, the integer
/// quotient otherwise.
pub open spec fn spec_qps(total_queries: u64, uptime_seconds: u64) -> u64 {
    if uptime_seconds == 0 {
        0u64
    } else {
        (total_queries / uptime_seconds) as u64
    }
}

/// Derives the query rate from the totals: exactly zero whenever the uptime
/// is zero, and exactly `total_queries / uptime_seconds` otherwise.
pub fn queries_per_second(total_queries: u64, uptime_seconds: u64) -> (r: u64)
    ensures
        r == spec_qps(total_queries, uptime_seconds),
        uptime_seconds == 0 ==> r == 0,
        uptime_seconds > 0 ==> r == total_queries / uptime_seconds,
{
    if uptime_seconds == 0 {
        0
    } else {
        total_queries / uptime_seconds
    }
}

// ---- neutral clamping of signed readings ----

/// A signed 64-bit reading as an unsigned counter: negatives clamp to zero.
pub open spec fn clamp_u64(v: i64) -> u64 {
    if v < 0 {
        0u64
    } else {
        v as u64
    }
}

/// A signed 64-bit reading as a 32-bit gauge: clamped into `u32` range.
pub open spec fn clamp_u32(v: i64) -> u32 {
    if v < 0 {
        0u32
    } else if v > u32::MAX {
        u32::MAX
    } else {
        v as u32
    }
}

/// Clamps a signed reading into an unsigned counter.
pub fn clamp_u64_x(v: i64) -> (r: u64)
    ensures
        r == clamp_u64(v),
{
    if v < 0 {
        0
    } else {
        v as u64
    }
}

/// Clamps a signed reading into a 32-bit gauge.
pub fn clamp_u32_x(v: i64) -> (r: u32)
    ensures
        r == clamp_u32(v),
{
    if v < 0 {
        0
    } else if v > u32::MAX as i64 {
        u32::MAX
    } else {
        v as u32
    }
}

// ---- MySQL-style status variables ----

/// One step of the status-variable fold. When two counters could both
/// represent the total query count (`Questions`, `Queries`), the larger one
/// wins, guarding against undercount from overlapping aliases.
pub open spec fn mysql_status_step(acc: StatsView, name: Seq<char>, value: Seq<char>) -> StatsView {
    if name == "Uptime"@ {
        StatsView { uptime_seconds: parse_or_zero(value, u64::MAX as nat) as u64, ..acc }
    } else if name == "Questions"@ || name == "Queries"@ {
        let v = parse_or_zero(value, u64::MAX as nat) as u64;
        if v > acc.total_queries {
            StatsView { total_queries: v, ..acc }
        } else {
            acc
        }
    } else if name == "Threads_connected"@ {
        StatsView { active_connections: parse_or_zero(value, u32::MAX as nat) as u32, ..acc }
    } else if name == "Slow_queries"@ {
        StatsView { slow_queries: parse_or_zero(value, u64::MAX as nat) as u64, ..acc }
    } else if name == "Bytes_received"@ {
        StatsView { bytes_received: parse_or_zero(value, u64::MAX as nat) as u64, ..acc }
    } else if name == "Bytes_sent"@ {
        StatsView { bytes_sent: parse_or_zero(value, u64::MAX as nat) as u64, ..acc }
    } else if name == "Innodb_buffer_pool_pages_total"@ {
        // 16 KiB per page, saturating on absurd readings
        let pages = parse_or_zero(value, u64::MAX as nat);
        let bytes = if pages * 16384 > u64::MAX as nat {
            u64::MAX
        } else {
            (pages * 16384) as u64
        };
        StatsView { buffer_pool_size: Some(bytes), ..acc }
    } else {
        acc
    }
}

/// The status-variable fold over a sequence of name/value rows.
pub open spec fn mysql_status_fold(rows: Seq<NameValue>, acc: StatsView) -> StatsView
    decreases rows.len(),
{
    if rows.len() == 0 {
        acc
    } else {
        mysql_status_fold(rows.drop_first(), mysql_status_step(acc, rows[0].name@, rows[0].value@))
    }
}

/// One step of the server-variable fold (`max_connections`, `version`).
pub open spec fn mysql_vars_step(acc: StatsView, name: Seq<char>, value: Seq<char>) -> StatsView {
    if name == "max_connections"@ {
        StatsView { max_connections: parse_or_zero(value, u32::MAX as nat) as u32, ..acc }
    } else if name == "version"@ {
        StatsView { server_version: Some("MySQL "@ + value), ..acc }
    } else {
        acc
    }
}

/// The server-variable fold over a sequence of name/value rows.
pub open spec fn mysql_vars_fold(rows: Seq<NameValue>, acc: StatsView) -> StatsView
    decreases rows.len(),
{
    if rows.len() == 0 {
        acc
    } else {
        mysql_vars_fold(rows.drop_first(), mysql_vars_step(acc, rows[0].name@, rows[0].value@))
    }
}

/// The statistics derived from a full status-variable reading: both folds,
/// then the derived query rate.
pub open spec fn spec_mysql_stats(status: Seq<NameValue>, vars: Seq<NameValue>) -> StatsView {
    let folded = mysql_vars_fold(vars, mysql_status_fold(status, default_view()));
    StatsView { queries_per_second: spec_qps(folded.total_queries, folded.uptime_seconds), ..folded }
}

/// Translates a status-variable reading (`status`: global status rows,
/// `vars`: the `max_connections` and `version` variable rows) into the
/// common statistics schema.
pub fn mysql_stats_from_status(status: &Vec<NameValue>, vars: &Vec<NameValue>) -> (r: DatabaseStats)
    ensures
        stats_view(r) == spec_mysql_stats(status@, vars@),
        r.extra@ == Seq::<NameValue>::empty(),
{
    let mut stats = DatabaseStats::default();
    let ghost init = stats_view(stats);
    proof {
        assert(init =~= default_view());
        assert(status@.skip(0) =~= status@);
    }
    let mut i: usize = 0;
    while i < status.len()
        invariant
            i <= status@.len(),
            r_extra_empty(&stats),
            stats.queries_per_second == 0,
            mysql_status_fold(status@.skip(i as int), stats_view(stats)) == mysql_status_fold(
                status@,
                default_view(),
            ),
        decreases status@.len() - i,
    {
        let ghost pre = stats_view(stats);
        let nv = &status[i];
        let name = nv.name.as_str();
        if str_eq(name, "Uptime") {
            let v = chars_vec(nv.value.as_str());
            stats.uptime_seconds = parse_u64_or_zero(v.as_slice());
        } else if str_eq(name, "Questions") || str_eq(name, "Queries") {
            let v = chars_vec(nv.value.as_str());
            let q = parse_u64_or_zero(v.as_slice());
            if q > stats.total_queries {
                stats.total_queries = q;
            }
        } else if str_eq(name, "Threads_connected") {
            let v = chars_vec(nv.value.as_str());
            stats.active_connections = parse_u32_or_zero(v.as_slice());
        } else if str_eq(name, "Slow_queries") {
            let v = chars_vec(nv.value.as_str());
            stats.slow_queries = parse_u64_or_zero(v.as_slice());
        } else if str_eq(name, "Bytes_received") {
            let v = chars_vec(nv.value.as_str());
            stats.bytes_received = parse_u64_or_zero(v.as_slice());
        } else if str_eq(name, "Bytes_sent") {
            let v = chars_vec(nv.value.as_str());
            stats.bytes_sent = parse_u64_or_zero(v.as_slice());
        } else if str_eq(name, "Innodb_buffer_pool_pages_total") {
            let v = chars_vec(nv.value.as_str());
            let pages = parse_u64_or_zero(v.as_slice());
            let bytes = match pages.checked_mul(16384) {
                Some(b) => b,
                None => u64::MAX,
            };
            stats.buffer_pool_size = Some(bytes);
        }
        proof {
            assert(stats_view(stats) =~= mysql_status_step(pre, status@[i as int].name@,
                status@[i as int].value@));
            assert(status@.skip(i as int).drop_first() =~= status@.skip(i as int + 1));
            assert(status@.skip(i as int)[0] == status@[i as int]);
        }
        i = i + 1;
    }
    proof {
        assert(status@.skip(status@.len() as int) =~= Seq::<NameValue>::empty());
        assert(vars@.skip(0) =~= vars@);
    }
    let mut j: usize = 0;
    while j < vars.len()
        invariant
            j <= vars@.len(),
            r_extra_empty(&stats),
            stats.queries_per_second == 0,
            mysql_vars_fold(vars@.skip(j as int), stats_view(stats)) == mysql_vars_fold(
                vars@,
                mysql_status_fold(status@, default_view()),
            ),
        decreases vars@.len() - j,
    {
        let ghost pre = stats_view(stats);
        let nv = &vars[j];
        let name = nv.name.as_str();
        if str_eq(name, "max_connections") {
            let v = chars_vec(nv.value.as_str());
            stats.max_connections = parse_u32_or_zero(v.as_slice());
        } else if str_eq(name, "version") {
            let mut ver: String = "MySQL ".to_owned();
            ver.append(nv.value.as_str());
            stats.server_version = Some(ver);
        }
        proof {
            assert(stats_view(stats) =~= mysql_vars_step(pre, vars@[j as int].name@,
                vars@[j as int].value@));
            assert(vars@.skip(j as int).drop_first() =~= vars@.skip(j as int + 1));
            assert(vars@.skip(j as int)[0] == vars@[j as int]);
        }
        j = j + 1;
    }
    proof {
        assert(vars@.skip(vars@.len() as int) =~= Seq::<NameValue>::empty());
    }
    stats.queries_per_second = queries_per_second(stats.total_queries, stats.uptime_seconds);
    proof {
        assert(stats_view(stats) =~= spec_mysql_stats(status@, vars@));
    }
    stats
}

/// Whether the free-form extras list of `s` is empty.
pub open spec fn r_extra_empty(s: &DatabaseStats) -> bool {
    s.extra@ == Seq::<NameValue>::empty()
}

// ---- key-value backend INFO blob ----

/// One line of an INFO blob folded into the view: a `key:value` line updates
/// the metric named by its key (the value trimmed of surrounding
/// whitespace); any other line changes nothing.
pub open spec fn redis_line_step(acc: StatsView, line: Seq<char>) -> StatsView {
    let j = find_idx(line, ':');
    if j == line.len() {
        acc
    } else {
        let key = line.take(j);
        let value = trimmed(line.skip(j + 1));
        if key == "uptime_in_seconds"@ {
            StatsView { uptime_seconds: parse_or_zero(value, u64::MAX as nat) as u64, ..acc }
        } else if key == "connected_clients"@ {
            StatsView { active_connections: parse_or_zero(value, u32::MAX as nat) as u32, ..acc }
        } else if key == "maxclients"@ {
            StatsView { max_connections: parse_or_zero(value, u32::MAX as nat) as u32, ..acc }
        } else if key == "total_commands_processed"@ {
            StatsView { total_queries: parse_or_zero(value, u64::MAX as nat) as u64, ..acc }
        } else if key == "used_memory"@ {
            StatsView { buffer_pool_size: Some(parse_or_zero(value, u64::MAX as nat) as u64), ..acc }
        } else if key == "redis_version"@ {
            StatsView { server_version: Some("Redis "@ + value), ..acc }
        } else {
            acc
        }
    }
}

/// The fold of a newline-delimited INFO blob.
pub open spec fn redis_fold(s: Seq<char>, acc: StatsView) -> StatsView
    decreases s.len(),
{
    if s.len() == 0 {
        acc
    } else {
        let k = find_idx_le(s, '\n');
        let acc2 = redis_line_step(acc, s.take(k));
        if k == s.len() {
            acc2
        } else {
            redis_fold(s.skip(k + 1), acc2)
        }
    }
}

/// The statistics derived from a full INFO blob: the line fold, then the
/// derived query rate.
pub open spec fn spec_redis_stats(info: Seq<char>) -> StatsView {
    let folded = redis_fold(info, default_view());
    StatsView { queries_per_second: spec_qps(folded.total_queries, folded.uptime_seconds), ..folded }
}

/// Parses a newline-delimited `key:value` INFO blob into the common
/// statistics schema.
pub fn redis_stats_from_info(info: &str) -> (r: DatabaseStats)
    ensures
        stats_view(r) == spec_redis_stats(info@),
        r.extra@ == Seq::<NameValue>::empty(),
{
    let v = chars_vec(info);
    let mut stats = DatabaseStats::default();
    proof {
        assert(stats_view(stats) =~= default_view());
        assert(v@.skip(0) =~= v@);
    }
    let n = v.len();
    let mut pos: usize = 0;
    while pos < n
        invariant
            pos <= n,
            n == v@.len(),
            v@ == info@,
            r_extra_empty(&stats),
            stats.queries_per_second == 0,
            redis_fold(v@.skip(pos as int), stats_view(stats)) == redis_fold(v@, default_view()),
        decreases n - pos,
    {
        let ghost pre = stats_view(stats);
        let ghost s = v@.skip(pos as int);
        let nl = find_char_range(v.as_slice(), pos, n, '\n');
        let end: usize = match nl {
            Some(k) => k,
            None => n,
        };
        proof {
            assert forall|k: int| 0 <= k < end - pos implies s[k] != '\n' by {
                assert(s[k] == v@[pos + k]);
            }
            if end < n {
                assert(s[end - pos] == v@[end as int]);
            }
            lemma_find_idx(s, '\n', end - pos);
            assert(s.take(end - pos) =~= v@.subrange(pos as int, end as int));
        }
        let ghost line = v@.subrange(pos as int, end as int);
        // split the line at its first colon, if any
        let colon = find_char_range(v.as_slice(), pos, end, ':');
        match colon {
            Some(cpos) => {
                proof {
                    assert forall|k: int| 0 <= k < cpos - pos implies line[k] != ':' by {
                        assert(line[k] == v@[pos + k]);
                    }
                    assert(line[cpos - pos] == v@[cpos as int]);
                    lemma_find_idx(line, ':', cpos - pos);
                    assert(line.take(cpos - pos) =~= v@.subrange(pos as int, cpos as int));
                    assert(line.skip(cpos - pos + 1) =~= v@.subrange(cpos + 1, end as int));
                }
                let key_chars = subrange_vec(v.as_slice(), pos, cpos);
                let key_s = chars_to_string(key_chars.as_slice());
                let key = key_s.as_str();
                let raw_value = subrange_vec(v.as_slice(), cpos + 1, end);
                let value = trim_chars(raw_value.as_slice());
                if str_eq(key, "uptime_in_seconds") {
                    stats.uptime_seconds = parse_u64_or_zero(value.as_slice());
                } else if str_eq(key, "connected_clients") {
                    stats.active_connections = parse_u32_or_zero(value.as_slice());
                } else if str_eq(key, "maxclients") {
                    stats.max_connections = parse_u32_or_zero(value.as_slice());
                } else if str_eq(key, "total_commands_processed") {
                    stats.total_queries = parse_u64_or_zero(value.as_slice());
                } else if str_eq(key, "used_memory") {
                    stats.buffer_pool_size = Some(parse_u64_or_zero(value.as_slice()));
                } else if str_eq(key, "redis_version") {
                    let mut ver: String = "Redis ".to_owned();
                    ver.append(chars_to_string(value.as_slice()).as_str());
                    stats.server_version = Some(ver);
                }
            },
            None => {
                proof {
                    assert forall|k: int| 0 <= k < line.len() implies line[k] != ':' by {
                        assert(line[k] == v@[pos + k]);
                    }
                    lemma_find_idx(line, ':', line.len() as int);
                }
            },
        }
        proof {
            assert(stats_view(stats) =~= redis_line_step(pre, line));
        }
        let ghost oldpos = pos as int;
        if end < n {
            proof {
                assert(s.skip(end - oldpos + 1) =~= v@.skip(end + 1));
            }
            pos = end + 1;
        } else {
            pos = n;
            proof {
                assert(v@.skip(n as int) =~= Seq::<char>::empty());
            }
        }
    }
    proof {
        assert(v@.skip(n as int) =~= Seq::<char>::empty());
    }
    stats.queries_per_second = queries_per_second(stats.total_queries, stats.uptime_seconds);
    proof {
        assert(stats_view(stats) =~= spec_redis_stats(info@));
    }
    stats
}

/// Law: for every backend kind, the derived query rate of an aggregated
/// reading is exactly zero when its uptime is zero, and exactly
/// `total_queries / uptime_seconds` otherwise.
pub proof fn lemma_qps_holds_for_all_backends(
    status: Seq<NameValue>,
    vars: Seq<NameValue>,
    info: Seq<char>,
    version: Option<Seq<char>>,
    active: Option<i64>,
    max_conn: Option<Seq<char>>,
    total: Option<i64>,
    uptime: Option<i64>,
)
    ensures
        ({
            let v = spec_mysql_stats(status, vars);
            v.queries_per_second == spec_qps(v.total_queries, v.uptime_seconds)
        }),
        ({
            let v = spec_redis_stats(info);
            v.queries_per_second == spec_qps(v.total_queries, v.uptime_seconds)
        }),
        ({
            let v = spec_postgres_stats(version, active, max_conn, total, uptime);
            v.queries_per_second == spec_qps(v.total_queries, v.uptime_seconds)
        }),
{
}

// ---- catalog-view backend (PostgreSQL-style) ----

/// The statistics assembled from the five catalog readings: a missing
/// reading leaves its field at the default, a signed reading clamps into
/// range, and the query rate is derived last.
pub open spec fn spec_postgres_stats(
    version: Option<Seq<char>>,
    active: Option<i64>,
    max_conn: Option<Seq<char>>,
    total: Option<i64>,
    uptime: Option<i64>,
) -> StatsView {
    let u = match uptime {
        Some(v) => clamp_u64(v),
        None => 0u64,
    };
    let t = match total {
        Some(v) => clamp_u64(v),
        None => 0u64,
    };
    StatsView {
        uptime_seconds: u,
        total_queries: t,
        active_connections: match active {
            Some(v) => clamp_u32(v),
            None => 0u32,
        },
        max_connections: match max_conn {
            Some(s) => parse_or_zero(s, u32::MAX as nat) as u32,
            None => 0u32,
        },
        slow_queries: 0u64,
        queries_per_second: spec_qps(t, u),
        bytes_received: 0u64,
        bytes_sent: 0u64,
        buffer_pool_size: None,
        server_version: match version {
            Some(s) => Some("PostgreSQL "@ + s),
            None => None,
        },
    }
}

/// Assembles the statistics of a catalog-view backend from its five separate
/// readings (server version, live session count, `max_connections` setting,
/// summed transaction counters, uptime from the server start timestamp).
/// Each reading is `None` when its query failed, leaving the field at its
/// default.
pub fn postgres_stats_from_parts(
    version: Option<String>,
    active: Option<i64>,
    max_conn: Option<String>,
    total: Option<i64>,
    uptime: Option<i64>,
) -> (r: DatabaseStats)
    ensures
        stats_view(r) == spec_postgres_stats(
            match version {
                Some(s) => Some(s@),
                None => None,
            },
            active,
            match max_conn {
                Some(s) => Some(s@),
                None => None,
            },
            total,
            uptime,
        ),
        r.extra@ == Seq::<NameValue>::empty(),
{
    let mut stats = DatabaseStats::default();
    match version {
        Some(v) => {
            let mut ver: String = "PostgreSQL ".to_owned();
            ver.append(v.as_str());
            stats.server_version = Some(ver);
        },
        None => {},
    }
    match active {
        Some(v) => {
            stats.active_connections = clamp_u32_x(v);
        },
        None => {},
    }
    match max_conn {
        Some(s) => {
            let v = chars_vec(s.as_str());
            stats.max_connections = parse_u32_or_zero(v.as_slice());
        },
        None => {},
    }
    match total {
        Some(v) => {
            stats.total_queries = clamp_u64_x(v);
        },
        None => {},
    }
    match uptime {
        Some(v) => {
            stats.uptime_seconds = clamp_u64_x(v);
        },
        None => {},
    }
    stats.queries_per_second = queries_per_second(stats.total_queries, stats.uptime_seconds);
    stats
}

// ---- process listings ----

/// One row of a status-variable backend's process listing, each column
/// absent where the server did not supply it.
pub struct RawMySqlProcess {
    pub id: Option<u64>,
    pub user: Option<String>,
    pub host: Option<String>,
    pub db: Option<String>,
    pub command: Option<String>,
    pub time: Option<u32>,
    pub state: Option<String>,
    pub info: Option<String>,
}

/// Translates one process-listing row, defaulting each absent column to its
/// neutral value (zero or the empty string).
pub fn mysql_process_from_row(row: RawMySqlProcess) -> (r: ProcessInfo)
    ensures
        r.id == (match row.id {
            Some(v) => v,
            None => 0u64,
        }),
        r.user@ == (match row.user {
            Some(s) => s@,
            None => Seq::<char>::empty(),
        }),
        r.host@ == (match row.host {
            Some(s) => s@,
            None => Seq::<char>::empty(),
        }),
        r.db == row.db,
        r.command@ == (match row.command {
            Some(s) => s@,
            None => Seq::<char>::empty(),
        }),
        r.time == (match row.time {
            Some(v) => v as u64,
            None => 0u64,
        }),
        r.state == row.state,
        r.info == row.info,
{
    ProcessInfo {
        id: match row.id {
            Some(v) => v,
            None => 0,
        },
        user: match row.user {
            Some(s) => s,
            None => String::new(),
        },
        host: match row.host {
            Some(s) => s,
            None => String::new(),
        },
        db: row.db,
        command: match row.command {
            Some(s) => s,
            None => String::new(),
        },
        time: match row.time {
            Some(v) => v as u64,
            None => 0,
        },
        state: row.state,
        info: row.info,
    }
}

/// One row of a catalog-view backend's session listing.
pub struct RawPgProcess {
    pub pid: Option<i32>,
    pub usename: Option<String>,
    pub client_addr: Option<String>,
    pub datname: Option<String>,
    pub state: Option<String>,
    pub query: Option<String>,
    pub duration: Option<i64>,
}

/// Translates one session row: an absent client address reads `local`, an
/// absent state reads `unknown`, a negative id or duration clamps to zero.
pub fn postgres_process_from_row(row: RawPgProcess) -> (r: ProcessInfo)
    ensures
        r.id == (match row.pid {
            Some(v) => clamp_u64(v as i64),
            None => 0u64,
        }),
        r.user@ == (match row.usename {
            Some(s) => s@,
            None => Seq::<char>::empty(),
        }),
        r.host@ == (match row.client_addr {
            Some(s) => s@,
            None => "local"@,
        }),
        r.db == row.datname,
        r.command@ == (match row.state {
            Some(s) => s@,
            None => "unknown"@,
        }),
        r.time == (match row.duration {
            Some(v) => clamp_u64(v),
            None => 0u64,
        }),
        r.state == row.state,
        r.info == row.query,
{
    let command: String = match &row.state {
        Some(s) => s.clone(),
        None => "unknown".to_owned(),
    };
    ProcessInfo {
        id: match row.pid {
            Some(v) => clamp_u64_x(v as i64),
            None => 0,
        },
        user: match row.usename {
            Some(s) => s,
            None => String::new(),
        },
        host: match row.client_addr {
            Some(s) => s,
            None => "local".to_owned(),
        },
        db: row.datname,
        command,
        time: match row.duration {
            Some(v) => clamp_u64_x(v),
            None => 0,
        },
        state: row.state,
        info: row.query,
    }
}

// ---- database listings ----

/// One row of a server's database listing, with the size already reduced to
/// whole megabytes.
pub struct RawDatabaseRow {
    pub name: Option<String>,
    pub tables_count: Option<i64>,
    pub size_mb: Option<u64>,
}

/// Translates one database-listing row, defaulting absent columns and
/// clamping a signed table count into range.
pub fn database_from_row(row: RawDatabaseRow) -> (r: DatabaseInfo)
    ensures
        r.name@ == (match row.name {
            Some(s) => s@,
            None => Seq::<char>::empty(),
        }),
        r.tables_count == (match row.tables_count {
            Some(v) => clamp_u32(v),
            None => 0u32,
        }),
        r.size_mb == (match row.size_mb {
            Some(v) => v,
            None => 0u64,
        }),
{
    DatabaseInfo {
        name: match row.name {
            Some(s) => s,
            None => String::new(),
        },
        tables_count: match row.tables_count {
            Some(v) => clamp_u32_x(v),
            None => 0,
        },
        size_mb: match row.size_mb {
            Some(v) => v,
            None => 0,
        },
    }
}

} // verus!

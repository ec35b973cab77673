//! The connection pool manager: metadata store, pool cache, and the state
//! machine over both.
//!
//! The manager holds the stored configurations (newest first) and a cache of
//! pool markers keyed by connection id. Live pool handles are owned by the
//! embedding runtime under the same ids: the manager decides every operation
//! (what to dial, when a lookup fails, how monitoring reads resolve) and the
//! runtime reports each dial outcome back through [`PoolManager::complete_connect`].
//!
//! Invariants kept by every operation: ids are unique in the store and in
//! the cache, at most one pool is cached per id, and a cached pool always
//! has stored metadata (eviction precedes metadata deletion).

use vstd::prelude::*;
use crate::connection::ConnectionConfig;
use crate::db_type::DbType;
use crate::errors::AppError;
use crate::monitor::{ConnectionPoolStats, DatabaseStats, MonitorOverview, NameValue,
    ProcessInfo, DatabaseInfo};
use crate::stats::{StatsView, stats_view, default_view};
use crate::text::dec_digits;
use crate::text::u64_to_dec;
use vstd::string::StringExecFns;

verus! {

/// Marker for the kind of live pool cached under a connection id. The live
/// handle itself stays with the embedding runtime, keyed by the same id;
/// `Unsupported` marks a recognized backend kind with no adapter.
#[derive(Clone, Copy, PartialEq, Eq, Structural, Debug)]
pub enum DatabasePool {
    MySQL,
    Postgres,
    SQLite,
    Redis,
    Unsupported,
}

/// The pool marker a backend kind maps to.
pub open spec fn spec_kind_of(t: DbType) -> DatabasePool {
    match t {
        DbType::MySQL => DatabasePool::MySQL,
        DbType::Postgres => DatabasePool::Postgres,
        DbType::SQLite => DatabasePool::SQLite,
        DbType::Redis => DatabasePool::Redis,
        _ => DatabasePool::Unsupported,
    }
}

/// The pool marker a backend kind maps to.
pub fn kind_of(t: DbType) -> (r: DatabasePool)
    ensures
        r == spec_kind_of(t),
{
    match t {
        DbType::MySQL => DatabasePool::MySQL,
        DbType::Postgres => DatabasePool::Postgres,
        DbType::SQLite => DatabasePool::SQLite,
        DbType::Redis => DatabasePool::Redis,
        _ => DatabasePool::Unsupported,
    }
}

/// Manager-level configuration: the pool size and connect-acquire timeout
/// used for every dialed pool.
#[derive(Clone, Copy, PartialEq, Eq, Structural, Debug)]
pub struct ManagerConfig {
    /// Maximum connections per dialed pool.
    pub max_connections: u32,
    /// Connect-acquire timeout in seconds.
    pub connect_timeout_secs: u64,
}

/// One cache entry: a pool marker under its connection id.
struct PoolEntry {
    id: String,
    pool: DatabasePool,
}

/// A cache view entry: the id's characters and the pool marker.
pub type CacheEntry = (Seq<char>, DatabasePool);

// ---- spec-level model of the store ----

/// Whether some stored configuration carries `id`.
pub open spec fn has_id(s: Seq<ConnectionConfig>, id: Seq<char>) -> bool {
    exists|i: int| 0 <= i < s.len() && s[i].id@ == id
}

/// Whether stored ids are pairwise distinct.
pub open spec fn unique_ids(s: Seq<ConnectionConfig>) -> bool {
    forall|i: int, j: int| 0 <= i < j < s.len() ==> s[i].id@ != s[j].id@
}

/// The first stored configuration carrying `id`, if any.
pub open spec fn store_find(s: Seq<ConnectionConfig>, id: Seq<char>) -> Option<ConnectionConfig>
    decreases s.len(),
{
    if s.len() == 0 {
        None
    } else if s[0].id@ == id {
        Some(s[0])
    } else {
        store_find(s.drop_first(), id)
    }
}

/// The store after registering `c`: newest first.
pub open spec fn spec_register(s: Seq<ConnectionConfig>, c: ConnectionConfig) -> Seq<
    ConnectionConfig,
> {
    seq![c] + s
}

// ---- spec-level model of the cache ----

/// Whether the cache holds a pool under `id`.
pub open spec fn cache_has(m: Seq<CacheEntry>, id: Seq<char>) -> bool {
    exists|i: int| 0 <= i < m.len() && m[i].0 == id
}

/// Whether cached ids are pairwise distinct.
pub open spec fn unique_keys(m: Seq<CacheEntry>) -> bool {
    forall|i: int, j: int| 0 <= i < j < m.len() ==> m[i].0 != m[j].0
}

/// The first cached pool under `id`, if any.
pub open spec fn cache_find(m: Seq<CacheEntry>, id: Seq<char>) -> Option<DatabasePool>
    decreases m.len(),
{
    if m.len() == 0 {
        None
    } else if m[0].0 == id {
        Some(m[0].1)
    } else {
        cache_find(m.drop_first(), id)
    }
}

/// The cache after a guarded insert: unchanged when `id` is already cached,
/// else extended by one entry. This is the only way a pool enters the cache,
/// so at most one pool ever exists per id.
pub open spec fn cache_insert(m: Seq<CacheEntry>, id: Seq<char>, k: DatabasePool) -> Seq<
    CacheEntry,
> {
    if cache_has(m, id) {
        m
    } else {
        m.push((id, k))
    }
}

// ---- lemmas about the model ----

/// A first match at `i` pins `store_find`.
pub proof fn lemma_store_find_at(s: Seq<ConnectionConfig>, id: Seq<char>, i: int)
    requires
        0 <= i < s.len(),
        s[i].id@ == id,
        forall|k: int| 0 <= k < i ==> s[k].id@ != id,
    ensures
        store_find(s, id) == Some(s[i]),
    decreases i,
{
    if i > 0 {
        let t = s.drop_first();
        assert forall|k: int| 0 <= k < i - 1 implies t[k].id@ != id by {
            assert(t[k] == s[k + 1]);
        }
        lemma_store_find_at(t, id, i - 1);
    }
}

/// No match anywhere makes `store_find` empty.
pub proof fn lemma_store_find_none(s: Seq<ConnectionConfig>, id: Seq<char>)
    requires
        forall|k: int| 0 <= k < s.len() ==> s[k].id@ != id,
    ensures
        store_find(s, id) is None,
    decreases s.len(),
{
    if s.len() > 0 {
        let t = s.drop_first();
        assert forall|k: int| 0 <= k < t.len() implies t[k].id@ != id by {
            assert(t[k] == s[k + 1]);
        }
        lemma_store_find_none(t, id);
    }
}

/// `store_find` succeeds exactly on stored ids.
pub proof fn lemma_store_find_has(s: Seq<ConnectionConfig>, id: Seq<char>)
    ensures
        (store_find(s, id) is Some) == has_id(s, id),
    decreases s.len(),
{
    if s.len() > 0 && s[0].id@ != id {
        let t = s.drop_first();
        lemma_store_find_has(t, id);
        assert forall|i: int| 0 <= i < s.len() && s[i].id@ == id implies has_id(t, id) by {
            assert(t[i - 1] == s[i]);
        }
        if has_id(t, id) {
            let i = choose|i: int| 0 <= i < t.len() && t[i].id@ == id;
            assert(s[i + 1] == t[i]);
        }
    }
}

/// A first match at `i` pins `cache_find`.
pub proof fn lemma_cache_find_at(m: Seq<CacheEntry>, id: Seq<char>, i: int)
    requires
        0 <= i < m.len(),
        m[i].0 == id,
        forall|k: int| 0 <= k < i ==> m[k].0 != id,
    ensures
        cache_find(m, id) == Some(m[i].1),
    decreases i,
{
    if i > 0 {
        let t = m.drop_first();
        assert forall|k: int| 0 <= k < i - 1 implies t[k].0 != id by {
            assert(t[k] == m[k + 1]);
        }
        lemma_cache_find_at(t, id, i - 1);
    }
}

/// No match anywhere makes `cache_find` empty.
pub proof fn lemma_cache_find_none(m: Seq<CacheEntry>, id: Seq<char>)
    requires
        forall|k: int| 0 <= k < m.len() ==> m[k].0 != id,
    ensures
        cache_find(m, id) is None,
    decreases m.len(),
{
    if m.len() > 0 {
        let t = m.drop_first();
        assert forall|k: int| 0 <= k < t.len() implies t[k].0 != id by {
            assert(t[k] == m[k + 1]);
        }
        lemma_cache_find_none(t, id);
    }
}

/// `cache_find` succeeds exactly on cached ids.
pub proof fn lemma_cache_find_has(m: Seq<CacheEntry>, id: Seq<char>)
    ensures
        (cache_find(m, id) is Some) == cache_has(m, id),
    decreases m.len(),
{
    if m.len() > 0 && m[0].0 != id {
        let t = m.drop_first();
        lemma_cache_find_has(t, id);
        assert forall|i: int| 0 <= i < m.len() && m[i].0 == id implies cache_has(t, id) by {
            assert(t[i - 1] == m[i]);
        }
        if cache_has(t, id) {
            let i = choose|i: int| 0 <= i < t.len() && t[i].0 == id;
            assert(m[i + 1] == t[i]);
        }
    }
}

// ---- lemmas about registration and removal ----

/// Registering a fresh id keeps uniqueness, stores exactly the new ids, and
/// leaves every other lookup unchanged.
pub proof fn lemma_register_keeps(s: Seq<ConnectionConfig>, c: ConnectionConfig)
    requires
        unique_ids(s),
        !has_id(s, c.id@),
    ensures
        unique_ids(spec_register(s, c)),
        forall|p: Seq<char>| #[trigger]
            has_id(spec_register(s, c), p) == (p == c.id@ || has_id(s, p)),
        store_find(spec_register(s, c), c.id@) == Some(c),
        forall|p: Seq<char>|
            p != c.id@ ==> #[trigger] store_find(spec_register(s, c), p) == store_find(s, p),
{
    let s2 = spec_register(s, c);
    assert(s2[0] == c);
    assert forall|i: int, j: int| 0 <= i < j < s2.len() implies s2[i].id@ != s2[j].id@ by {
        if i == 0 {
            assert(s2[j] == s[j - 1]);
        } else {
            assert(s2[i] == s[i - 1]);
            assert(s2[j] == s[j - 1]);
        }
    }
    assert forall|p: Seq<char>| #[trigger]
        has_id(s2, p) == (p == c.id@ || has_id(s, p)) by {
        if has_id(s2, p) {
            let i = choose|i: int| 0 <= i < s2.len() && s2[i].id@ == p;
            if i > 0 {
                assert(s2[i] == s[i - 1]);
            }
        }
        if has_id(s, p) {
            let i = choose|i: int| 0 <= i < s.len() && s[i].id@ == p;
            assert(s2[i + 1] == s[i]);
        }
        if p == c.id@ {
            assert(s2[0].id@ == p);
        }
    }
    assert forall|p: Seq<char>|
        p != c.id@ implies #[trigger] store_find(s2, p) == store_find(s, p) by {
        assert(s2.drop_first() =~= s);
    }
}

/// Removing the entry at a first-match index under unique keys: the id is
/// gone, uniqueness survives, and every other lookup is unchanged.
pub proof fn lemma_cache_gone_after_remove(m: Seq<CacheEntry>, id: Seq<char>, i: int)
    requires
        unique_keys(m),
        0 <= i < m.len(),
        m[i].0 == id,
    ensures
        !cache_has(m.remove(i), id),
        cache_find(m.remove(i), id) is None,
        unique_keys(m.remove(i)),
        forall|p: Seq<char>|
            p != id ==> #[trigger] cache_find(m.remove(i), p) == cache_find(m, p),
{
    let m2 = m.remove(i);
    m.remove_ensures(i);
    assert forall|j: int| 0 <= j < m2.len() implies m2[j].0 != id by {
        if j < i {
            assert(m2[j] == m[j]);
        } else {
            assert(m2[j] == m[j + 1]);
        }
    }
    lemma_cache_find_none(m2, id);
    assert forall|a: int, b: int| 0 <= a < b < m2.len() implies m2[a].0 != m2[b].0 by {
        let ia: int = if a < i {
            a
        } else {
            a + 1
        };
        let ib: int = if b < i {
            b
        } else {
            b + 1
        };
        assert(m2[a] == m[ia]);
        assert(m2[b] == m[ib]);
        assert(ia < ib);
    }
    assert forall|p: Seq<char>|
        p != id implies #[trigger] cache_find(m2, p) == cache_find(m, p) by {
        lemma_cache_find_remove_frame(m, i, p);
    }
}

/// Removing an entry whose key differs from `p` leaves `p`'s lookup
/// unchanged.
pub proof fn lemma_cache_find_remove_frame(m: Seq<CacheEntry>, i: int, p: Seq<char>)
    requires
        0 <= i < m.len(),
        m[i].0 != p,
    ensures
        cache_find(m.remove(i), p) == cache_find(m, p),
    decreases m.len(),
{
    let m2 = m.remove(i);
    m.remove_ensures(i);
    if i == 0 {
        assert(m2 =~= m.drop_first());
    } else {
        assert(m2[0] == m[0]);
        if m[0].0 == p {
        } else {
            assert(m.drop_first().remove(i - 1) =~= m2.drop_first());
            lemma_cache_find_remove_frame(m.drop_first(), i - 1, p);
        }
    }
}

/// The store analog of [`lemma_cache_gone_after_remove`].
pub proof fn lemma_store_gone_after_remove(s: Seq<ConnectionConfig>, id: Seq<char>, i: int)
    requires
        unique_ids(s),
        0 <= i < s.len(),
        s[i].id@ == id,
    ensures
        !has_id(s.remove(i), id),
        store_find(s.remove(i), id) is None,
        unique_ids(s.remove(i)),
        forall|p: Seq<char>|
            p != id ==> #[trigger] store_find(s.remove(i), p) == store_find(s, p),
        forall|p: Seq<char>| p != id ==> #[trigger] has_id(s.remove(i), p) == has_id(s, p),
{
    let s2 = s.remove(i);
    s.remove_ensures(i);
    assert forall|j: int| 0 <= j < s2.len() implies s2[j].id@ != id by {
        if j < i {
            assert(s2[j] == s[j]);
        } else {
            assert(s2[j] == s[j + 1]);
        }
    }
    lemma_store_find_none(s2, id);
    assert forall|a: int, b: int| 0 <= a < b < s2.len() implies s2[a].id@ != s2[b].id@ by {
        let ia: int = if a < i {
            a
        } else {
            a + 1
        };
        let ib: int = if b < i {
            b
        } else {
            b + 1
        };
        assert(s2[a] == s[ia]);
        assert(s2[b] == s[ib]);
        assert(ia < ib);
    }
    assert forall|p: Seq<char>|
        p != id implies #[trigger] store_find(s2, p) == store_find(s, p) by {
        lemma_store_find_remove_frame(s, i, p);
    }
    assert forall|p: Seq<char>| p != id implies #[trigger] has_id(s2, p) == has_id(s, p) by {
        if has_id(s, p) {
            let k = choose|k: int| 0 <= k < s.len() && s[k].id@ == p;
            if k < i {
                assert(s2[k] == s[k]);
            } else {
                assert(s2[k - 1] == s[k]);
            }
        }
        if has_id(s2, p) {
            let j = choose|j: int| 0 <= j < s2.len() && s2[j].id@ == p;
            if j < i {
                assert(s2[j] == s[j]);
            } else {
                assert(s2[j] == s[j + 1]);
            }
        }
    }
}

/// The store analog of [`lemma_cache_find_remove_frame`].
pub proof fn lemma_store_find_remove_frame(s: Seq<ConnectionConfig>, i: int, p: Seq<char>)
    requires
        0 <= i < s.len(),
        s[i].id@ != p,
    ensures
        store_find(s.remove(i), p) == store_find(s, p),
    decreases s.len(),
{
    let s2 = s.remove(i);
    s.remove_ensures(i);
    if i == 0 {
        assert(s2 =~= s.drop_first());
    } else {
        assert(s2[0] == s[0]);
        if s[0].id@ == p {
        } else {
            assert(s.drop_first().remove(i - 1) =~= s2.drop_first());
            lemma_store_find_remove_frame(s.drop_first(), i - 1, p);
        }
    }
}

// ---- connect plans ----

/// What the runtime must dial to build a pool for a configuration: the
/// backend-native connection string plus pool sizing. An embedded-file
/// backend always uses a pool of one connection, so its plan carries no
/// sizing; `Unsupported` marks a recognized kind with no adapter.
pub enum ConnectPlan {
    MySQL { url: String, max_connections: u32, timeout_secs: u64 },
    Postgres { url: String, max_connections: u32, timeout_secs: u64 },
    SQLite { url: String },
    Redis { url: String },
    Unsupported,
}

/// The string an optional field contributes: its value, or the default.
pub open spec fn opt_or(o: Option<String>, d: Seq<char>) -> Seq<char> {
    match o {
        Some(s) => s@,
        None => d,
    }
}

/// The decimal rendering of the configured port, or of the default.
pub open spec fn port_digits(p: Option<u16>, d: u16) -> Seq<char> {
    dec_digits((match p {
        Some(v) => v,
        None => d,
    }) as nat)
}

/// The connection string of a MySQL-style configuration: username defaults
/// to `root`, password and database to empty, port to 3306.
pub open spec fn spec_mysql_url(c: ConnectionConfig) -> Seq<char> {
    "mysql://"@ + opt_or(c.username, "root"@) + ":"@ + opt_or(c.password, Seq::empty()) + "@"@
        + c.host.unwrap()@ + ":"@ + port_digits(c.port, 3306) + "/"@ + opt_or(
        c.database,
        Seq::empty(),
    )
}

/// The connection string of a PostgreSQL-style configuration: username and
/// database default to `postgres`, password to empty, port to 5432.
pub open spec fn spec_postgres_url(c: ConnectionConfig) -> Seq<char> {
    "postgres://"@ + opt_or(c.username, "postgres"@) + ":"@ + opt_or(c.password, Seq::empty())
        + "@"@ + c.host.unwrap()@ + ":"@ + port_digits(c.port, 5432) + "/"@ + opt_or(
        c.database,
        "postgres"@,
    )
}

/// The connection string of a key-value configuration: the password appears
/// only when configured, the port defaults to 6379.
pub open spec fn spec_redis_url(c: ConnectionConfig) -> Seq<char> {
    match c.password {
        Some(p) => "redis://:"@ + p@ + "@"@ + c.host.unwrap()@ + ":"@ + port_digits(c.port, 6379),
        None => "redis://"@ + c.host.unwrap()@ + ":"@ + port_digits(c.port, 6379),
    }
}

/// The connection string of an embedded-file configuration, opened
/// read-write-create.
pub open spec fn spec_sqlite_url(c: ConnectionConfig) -> Seq<char> {
    "sqlite:"@ + c.file_path.unwrap()@ + "?mode=rwc"@
}

/// Whether building a plan for `c` fails validation: a networked backend
/// without a host, or an embedded-file backend without a file path.
pub open spec fn plan_err_for(c: ConnectionConfig) -> bool {
    match c.db_type {
        DbType::MySQL | DbType::Postgres | DbType::Redis => c.host is None,
        DbType::SQLite => c.file_path is None,
        _ => false,
    }
}

/// Whether `plan` is exactly the plan for `c` under `cfg`.
pub open spec fn plan_ok_for(plan: ConnectPlan, c: ConnectionConfig, cfg: ManagerConfig) -> bool {
    match c.db_type {
        DbType::MySQL => plan matches ConnectPlan::MySQL { url, max_connections, timeout_secs }
            && url@ == spec_mysql_url(c) && max_connections == cfg.max_connections && timeout_secs
            == cfg.connect_timeout_secs,
        DbType::Postgres => plan matches ConnectPlan::Postgres {
            url,
            max_connections,
            timeout_secs,
        } && url@ == spec_postgres_url(c) && max_connections == cfg.max_connections && timeout_secs
            == cfg.connect_timeout_secs,
        DbType::SQLite => plan matches ConnectPlan::SQLite { url } && url@ == spec_sqlite_url(c),
        DbType::Redis => plan matches ConnectPlan::Redis { url } && url@ == spec_redis_url(c),
        _ => plan is Unsupported,
    }
}

/// What a connection test asks of the runtime: ping the cached pool, or
/// dial a fresh plan first (reporting the outcome through
/// [`PoolManager::complete_connect`]) and then ping.
pub enum TestPlan {
    Ping(DatabasePool),
    ConnectThenPing(ConnectPlan),
}

// ---- the manager ----

/// Manages the stored connection configurations and the pool cache.
pub struct PoolManager {
    config: ManagerConfig,
    /// Stored configurations, newest first.
    connections: Vec<ConnectionConfig>,
    /// Cached pool markers, one per id.
    pools: Vec<PoolEntry>,
}

impl PoolManager {
    /// The stored configurations, newest first.
    pub closed spec fn store(self) -> Seq<ConnectionConfig> {
        self.connections@
    }

    /// The cached pools as (id, marker) pairs.
    pub closed spec fn cache(self) -> Seq<CacheEntry> {
        self.pools@.map_values(|e: PoolEntry| (e.id@, e.pool))
    }

    /// The manager-level configuration.
    pub closed spec fn cfg(self) -> ManagerConfig {
        self.config
    }

    /// Well-formedness: unique ids in store and cache, and every cached pool
    /// backed by stored metadata.
    pub open spec fn wf(self) -> bool {
        &&& unique_ids(self.store())
        &&& unique_keys(self.cache())
        &&& forall|i: int| 0 <= i < self.cache().len() ==> has_id(
            self.store(),
            #[trigger] self.cache()[i].0,
        )
    }

    /// A fresh manager: nothing stored, nothing cached.
    pub fn new(config: ManagerConfig) -> (r: Self)
        ensures
            r.wf(),
            r.store() == Seq::<ConnectionConfig>::empty(),
            r.cache() == Seq::<CacheEntry>::empty(),
            r.cfg() == config,
    {
        let r = PoolManager { config, connections: Vec::new(), pools: Vec::new() };
        proof {
            assert(r.cache() =~= Seq::<CacheEntry>::empty());
        }
        r
    }

    /// The index of the stored configuration carrying `id`, if any.
    fn find_conn_idx(&self, id: &str) -> (r: Option<usize>)
        ensures
            match r {
                Some(i) => i < self.store().len() && self.store()[i as int].id@ == id@
                    && store_find(self.store(), id@) == Some(self.store()[i as int]),
                None => store_find(self.store(), id@) is None && !has_id(self.store(), id@),
            },
    {
        let owned: String = id.to_owned();
        let mut i: usize = 0;
        while i < self.connections.len()
            invariant
                i <= self.store().len(),
                owned@ == id@,
                forall|k: int| 0 <= k < i ==> self.store()[k].id@ != id@,
            decreases self.store().len() - i,
        {
            if self.connections[i].id == owned {
                proof {
                    lemma_store_find_at(self.store(), id@, i as int);
                }
                return Some(i);
            }
            i = i + 1;
        }
        proof {
            lemma_store_find_none(self.store(), id@);
        }
        None
    }

    /// The index of the cache entry under `id`, if any.
    fn find_pool_idx(&self, id: &str) -> (r: Option<usize>)
        ensures
            match r {
                Some(i) => i < self.cache().len() && self.cache()[i as int].0 == id@
                    && cache_find(self.cache(), id@) == Some(self.cache()[i as int].1)
                    && self.pools@[i as int].pool == self.cache()[i as int].1,
                None => cache_find(self.cache(), id@) is None && !cache_has(self.cache(), id@),
            },
    {
        let owned: String = id.to_owned();
        let mut i: usize = 0;
        while i < self.pools.len()
            invariant
                i <= self.cache().len(),
                self.cache().len() == self.pools@.len(),
                owned@ == id@,
                forall|k: int| 0 <= k < i ==> self.cache()[k].0 != id@,
            decreases self.cache().len() - i,
        {
            if self.pools[i].id == owned {
                proof {
                    lemma_cache_find_at(self.cache(), id@, i as int);
                }
                return Some(i);
            }
            i = i + 1;
        }
        proof {
            lemma_cache_find_none(self.cache(), id@);
        }
        None
    }

    /// Gets a stored configuration by id.
    pub fn get_connection(&self, id: &str) -> (r: Option<ConnectionConfig>)
        ensures
            r == store_find(self.store(), id@),
            (r is Some) == has_id(self.store(), id@),
    {
        proof {
            lemma_store_find_has(self.store(), id@);
        }
        match self.find_conn_idx(id) {
            Some(i) => Some(self.connections[i].clone()),
            None => None,
        }
    }

    /// All stored configurations, newest first.
    pub fn list_connections(&self) -> (r: Vec<ConnectionConfig>)
        ensures
            r@ == self.store(),
    {
        let mut out: Vec<ConnectionConfig> = Vec::new();
        let mut i: usize = 0;
        while i < self.connections.len()
            invariant
                i <= self.store().len(),
                out@ == self.store().take(i as int),
            decreases self.store().len() - i,
        {
            out.push(self.connections[i].clone());
            i = i + 1;
            proof {
                assert(out@ =~= self.store().take(i as int));
            }
        }
        proof {
            assert(self.store().take(self.store().len() as int) =~= self.store());
        }
        out
    }

    /// The cached pool marker under `id`, if any.
    pub fn get_pool(&self, id: &str) -> (r: Option<DatabasePool>)
        ensures
            r == cache_find(self.cache(), id@),
    {
        match self.find_pool_idx(id) {
            Some(i) => Some(self.pools[i].pool),
            None => None,
        }
    }

    /// Whether metadata is stored under `id`.
    pub fn connection_exists(&self, id: &str) -> (r: bool)
        ensures
            r == has_id(self.store(), id@),
    {
        match self.find_conn_idx(id) {
            Some(_) => true,
            None => {
                proof {
                    lemma_store_find_has(self.store(), id@);
                }
                false
            },
        }
    }

    /// The number of stored configurations.
    pub fn connection_count(&self) -> (r: usize)
        ensures
            r == self.store().len(),
    {
        self.connections.len()
    }

    /// Builds the MySQL-style connection string, rejecting a configuration
    /// without a host before any network work.
    fn build_mysql_url(&self, config: &ConnectionConfig) -> (r: Result<String, AppError>)
        ensures
            match r {
                Ok(u) => config.host is Some && u@ == spec_mysql_url(*config),
                Err(e) => config.host is None && e is Validation,
            },
    {
        let host: &str = match &config.host {
            Some(h) => h.as_str(),
            None => {
                return Err(AppError::Validation("MySQL requires host".to_owned()));
            },
        };
        let port: u16 = match config.port {
            Some(p) => p,
            None => 3306,
        };
        let username: &str = match &config.username {
            Some(u) => u.as_str(),
            None => "root",
        };
        let password: &str = match &config.password {
            Some(p) => p.as_str(),
            None => "",
        };
        let database: &str = match &config.database {
            Some(d) => d.as_str(),
            None => "",
        };
        let mut url: String = "mysql://".to_owned();
        url.append(username);
        url.append(":");
        url.append(password);
        url.append("@");
        url.append(host);
        url.append(":");
        let ps = u64_to_dec(port as u64);
        url.append(ps.as_str());
        url.append("/");
        url.append(database);
        proof {
            reveal_strlit("");
            assert(url@ =~= spec_mysql_url(*config));
        }
        Ok(url)
    }

    /// Builds the PostgreSQL-style connection string, rejecting a
    /// configuration without a host before any network work.
    fn build_postgres_url(&self, config: &ConnectionConfig) -> (r: Result<String, AppError>)
        ensures
            match r {
                Ok(u) => config.host is Some && u@ == spec_postgres_url(*config),
                Err(e) => config.host is None && e is Validation,
            },
    {
        let host: &str = match &config.host {
            Some(h) => h.as_str(),
            None => {
                return Err(AppError::Validation("PostgreSQL requires host".to_owned()));
            },
        };
        let port: u16 = match config.port {
            Some(p) => p,
            None => 5432,
        };
        let username: &str = match &config.username {
            Some(u) => u.as_str(),
            None => "postgres",
        };
        let password: &str = match &config.password {
            Some(p) => p.as_str(),
            None => "",
        };
        let database: &str = match &config.database {
            Some(d) => d.as_str(),
            None => "postgres",
        };
        let mut url: String = "postgres://".to_owned();
        url.append(username);
        url.append(":");
        url.append(password);
        url.append("@");
        url.append(host);
        url.append(":");
        let ps = u64_to_dec(port as u64);
        url.append(ps.as_str());
        url.append("/");
        url.append(database);
        proof {
            reveal_strlit("");
            assert(url@ =~= spec_postgres_url(*config));
        }
        Ok(url)
    }

    /// Builds the key-value connection string, rejecting a configuration
    /// without a host before any network work.
    fn build_redis_url(&self, config: &ConnectionConfig) -> (r: Result<String, AppError>)
        ensures
            match r {
                Ok(u) => config.host is Some && u@ == spec_redis_url(*config),
                Err(e) => config.host is None && e is Validation,
            },
    {
        let host: &str = match &config.host {
            Some(h) => h.as_str(),
            None => {
                return Err(AppError::Validation("Redis requires host".to_owned()));
            },
        };
        let port: u16 = match config.port {
            Some(p) => p,
            None => 6379,
        };
        let ps = u64_to_dec(port as u64);
        let mut url: String;
        match &config.password {
            Some(password) => {
                url = "redis://:".to_owned();
                url.append(password.as_str());
                url.append("@");
                url.append(host);
                url.append(":");
                url.append(ps.as_str());
            },
            None => {
                url = "redis://".to_owned();
                url.append(host);
                url.append(":");
                url.append(ps.as_str());
            },
        }
        proof {
            assert(url@ =~= spec_redis_url(*config));
        }
        Ok(url)
    }

    /// Decides the plan for building a pool from a configuration: the
    /// connection string and sizing for a dialable backend, the
    /// `Unsupported` marker for a recognized kind with no adapter, or a
    /// `Validation` error when a required field is missing.
    pub fn try_create_pool(&self, config: &ConnectionConfig) -> (r: Result<ConnectPlan, AppError>)
        ensures
            match r {
                Ok(plan) => !plan_err_for(*config) && plan_ok_for(plan, *config, self.cfg()),
                Err(e) => plan_err_for(*config) && e is Validation,
            },
    {
        match config.db_type {
            DbType::MySQL => {
                let url = self.build_mysql_url(config)?;
                Ok(ConnectPlan::MySQL {
                    url,
                    max_connections: self.config.max_connections,
                    timeout_secs: self.config.connect_timeout_secs,
                })
            },
            DbType::Postgres => {
                let url = self.build_postgres_url(config)?;
                Ok(ConnectPlan::Postgres {
                    url,
                    max_connections: self.config.max_connections,
                    timeout_secs: self.config.connect_timeout_secs,
                })
            },
            DbType::SQLite => {
                let path: &str = match &config.file_path {
                    Some(p) => p.as_str(),
                    None => {
                        return Err(AppError::Validation("SQLite requires file_path".to_owned()));
                    },
                };
                let mut url: String = "sqlite:".to_owned();
                url.append(path);
                url.append("?mode=rwc");
                proof {
                    assert(url@ =~= spec_sqlite_url(*config));
                }
                Ok(ConnectPlan::SQLite { url })
            },
            DbType::Redis => {
                let url = self.build_redis_url(config)?;
                Ok(ConnectPlan::Redis { url })
            },
            _ => Ok(ConnectPlan::Unsupported),
        }
    }

    /// Registers a connection: metadata is persisted first (durability
    /// precedes connectivity), and registration succeeds even when no pool
    /// can be built. The result carries the dial plan for the runtime when
    /// there is one (`Ok(Some(plan))`; the runtime reports its outcome
    /// through [`Self::complete_connect`]), `Ok(None)` when nothing is to be
    /// dialed (a failed validation leaves the connection registered without
    /// a pool; an unsupported kind caches its marker at once), and
    /// `DuplicateId` when the id is already stored.
    pub fn add_connection(&mut self, config: ConnectionConfig) -> (r: Result<
        Option<ConnectPlan>,
        AppError,
    >)
        requires
            old(self).wf(),
        ensures
            final(self).wf(),
            final(self).cfg() == old(self).cfg(),
            match r {
                Err(e) => e is DuplicateId && has_id(old(self).store(), config.id@)
                    && final(self).store() == old(self).store()
                    && final(self).cache() == old(self).cache(),
                Ok(plan_opt) => !has_id(old(self).store(), config.id@) && final(self).store()
                    == spec_register(old(self).store(), config) && (if !config.db_type.spec_supported() {
                    final(self).cache() == cache_insert(
                        old(self).cache(),
                        config.id@,
                        DatabasePool::Unsupported,
                    ) && plan_opt is None
                } else if plan_err_for(config) {
                    final(self).cache() == old(self).cache() && plan_opt is None
                } else {
                    final(self).cache() == old(self).cache() && (plan_opt matches Some(plan)
                        && plan_ok_for(plan, config, old(self).cfg()))
                }),
            },
    {
        match self.find_conn_idx(config.id.as_str()) {
            Some(_) => {
                return Err(AppError::DuplicateId(config.id.clone()));
            },
            None => {},
        }
        let plan = self.try_create_pool(&config);
        let ghost old_store = self.store();
        let ghost old_cache = self.cache();
        let ghost cid = config.id@;
        let entry_id = config.id.clone();
        self.connections.insert(0, config);
        proof {
            assert(self.store() =~= spec_register(old_store, config));
            lemma_register_keeps(old_store, config);
            assert(self.cache() =~= old_cache);
        }
        match plan {
            Ok(ConnectPlan::Unsupported) => {
                proof {
                    // a cached id is always stored, so a fresh id is uncached
                    if cache_has(old_cache, cid) {
                        let i = choose|i: int| 0 <= i < old_cache.len() && old_cache[i].0 == cid;
                        assert(has_id(old_store, cid));
                    }
                }
                self.pools.push(PoolEntry { id: entry_id, pool: DatabasePool::Unsupported });
                proof {
                    assert(self.cache() =~= old_cache.push((cid, DatabasePool::Unsupported)));
                    assert(self.cache() == cache_insert(old_cache, cid, DatabasePool::Unsupported));
                    assert forall|i: int| 0 <= i < self.cache().len() implies has_id(
                        self.store(),
                        #[trigger] self.cache()[i].0,
                    ) by {
                        if i < old_cache.len() {
                            assert(self.cache()[i] == old_cache[i]);
                        } else {
                            assert(self.store()[0].id@ == cid);
                        }
                    }
                }
                Ok(None)
            },
            Ok(p) => {
                proof {
                    assert forall|i: int| 0 <= i < self.cache().len() implies has_id(
                        self.store(),
                        #[trigger] self.cache()[i].0,
                    ) by {
                        assert(self.cache()[i] == old_cache[i]);
                    }
                }
                Ok(Some(p))
            },
            Err(_) => {
                proof {
                    assert forall|i: int| 0 <= i < self.cache().len() implies has_id(
                        self.store(),
                        #[trigger] self.cache()[i].0,
                    ) by {
                        assert(self.cache()[i] == old_cache[i]);
                    }
                }
                Ok(None)
            },
        }
    }

    /// Applies a dial outcome reported by the runtime. A successful dial for
    /// a stored, uncached id caches the pool marker of its backend kind;
    /// every other report (a failure, an unknown id, or an id that another
    /// completion already cached) leaves the manager unchanged, so the
    /// second of two racing completions observes the first's pool rather
    /// than installing another.
    pub fn complete_connect(&mut self, id: &str, success: bool)
        requires
            old(self).wf(),
        ensures
            final(self).wf(),
            final(self).store() == old(self).store(),
            final(self).cfg() == old(self).cfg(),
            final(self).cache() == (if success && has_id(old(self).store(), id@) && !cache_has(
                old(self).cache(),
                id@,
            ) {
                cache_insert(
                    old(self).cache(),
                    id@,
                    spec_kind_of(store_find(old(self).store(), id@).unwrap().db_type),
                )
            } else {
                old(self).cache()
            }),
    {
        if !success {
            return ;
        }
        let conn_idx = match self.find_conn_idx(id) {
            Some(i) => i,
            None => {
                return ;
            },
        };
        proof {
            assert(has_id(self.store(), id@));
        }
        match self.find_pool_idx(id) {
            Some(_) => {
                proof {
                    lemma_cache_find_has(self.cache(), id@);
                }
            },
            None => {
                let ghost old_cache = self.cache();
                let ghost old_store = self.store();
                let kind = kind_of(self.connections[conn_idx].db_type);
                self.pools.push(PoolEntry { id: id.to_owned(), pool: kind });
                proof {
                    assert(self.cache() =~= old_cache.push((id@, kind)));
                    assert(self.cache() == cache_insert(old_cache, id@, kind));
                    assert forall|i: int| 0 <= i < self.cache().len() implies has_id(
                        self.store(),
                        #[trigger] self.cache()[i].0,
                    ) by {
                        if i < old_cache.len() {
                            assert(self.cache()[i] == old_cache[i]);
                        }
                    }
                }
            },
        }
    }

    /// Decides a connection test. A cached pool is pinged directly; with no
    /// cached pool, the stored metadata is re-derived and a fresh dial plan
    /// returned (the self-healing path: the runtime dials, reports through
    /// [`Self::complete_connect`], then pings). Fails with
    /// `ConnectionNotFound` when no metadata is stored under the id, with
    /// `Validation` when the stored configuration cannot produce a plan, and
    /// with `UnsupportedDatabaseType` for a backend kind with no adapter.
    pub fn test_connection(&mut self, id: &str) -> (r: Result<TestPlan, AppError>)
        requires
            old(self).wf(),
        ensures
            final(self).wf(),
            final(self).store() == old(self).store(),
            final(self).cfg() == old(self).cfg(),
            match cache_find(old(self).cache(), id@) {
                Some(DatabasePool::Unsupported) => r matches Err(e) && e
                    is UnsupportedDatabaseType && final(self).cache() == old(self).cache(),
                Some(k) => r matches Ok(TestPlan::Ping(k2)) && k2 == k && final(self).cache()
                    == old(self).cache(),
                None => match store_find(old(self).store(), id@) {
                    None => r matches Err(e) && e is ConnectionNotFound && final(self).cache()
                        == old(self).cache(),
                    Some(c) => (if plan_err_for(c) {
                        r matches Err(e) && e is Validation
                            && final(self).cache() == old(self).cache()
                    } else if !c.db_type.spec_supported() {
                        r matches Err(e) && e is UnsupportedDatabaseType && final(self).cache()
                            == cache_insert(old(self).cache(), id@, DatabasePool::Unsupported)
                    } else {
                        r matches Ok(TestPlan::ConnectThenPing(plan)) && plan_ok_for(
                            plan,
                            c,
                            old(self).cfg(),
                        ) && final(self).cache() == old(self).cache()
                    }),
                },
            },
    {
        match self.find_pool_idx(id) {
            Some(i) => {
                let k = self.pools[i].pool;
                match k {
                    DatabasePool::Unsupported => Err(
                        AppError::UnsupportedDatabaseType(
                            "Connection type not supported yet".to_owned(),
                        ),
                    ),
                    _ => Ok(TestPlan::Ping(k)),
                }
            },
            None => {
                match self.find_conn_idx(id) {
                    None => Err(AppError::ConnectionNotFound(id.to_owned())),
                    Some(ci) => {
                        let config = self.connections[ci].clone();
                        match self.try_create_pool(&config) {
                            Err(e) => Err(e),
                            Ok(ConnectPlan::Unsupported) => {
                                let ghost old_cache = self.cache();
                                let ghost old_store = self.store();
                                self.pools.push(
                                    PoolEntry { id: id.to_owned(), pool: DatabasePool::Unsupported },
                                );
                                proof {
                                    assert(self.cache() =~= old_cache.push(
                                        (id@, DatabasePool::Unsupported),
                                    ));
                                    assert(self.cache() == cache_insert(
                                        old_cache,
                                        id@,
                                        DatabasePool::Unsupported,
                                    ));
                                    assert(has_id(self.store(), id@));
                                    assert forall|i: int|
                                        0 <= i < self.cache().len() implies has_id(
                                        self.store(),
                                        #[trigger] self.cache()[i].0,
                                    ) by {
                                        if i < old_cache.len() {
                                            assert(self.cache()[i] == old_cache[i]);
                                        }
                                    }
                                }
                                Err(
                                    AppError::UnsupportedDatabaseType(
                                        "Connection type not supported yet".to_owned(),
                                    ),
                                )
                            },
                            Ok(plan) => Ok(TestPlan::ConnectThenPing(plan)),
                        }
                    },
                }
            },
        }
    }

    /// Removes a connection: the cached pool is evicted first, then the
    /// metadata row deleted, so no operation can observe a pool for a
    /// connection without metadata. Fails with `ConnectionNotFound` when no
    /// metadata is stored under the id.
    pub fn remove_connection(&mut self, id: &str) -> (r: Result<(), AppError>)
        requires
            old(self).wf(),
        ensures
            final(self).wf(),
            final(self).cfg() == old(self).cfg(),
            !cache_has(final(self).cache(), id@),
            cache_find(final(self).cache(), id@) is None,
            match r {
                Ok(_) => has_id(old(self).store(), id@) && !has_id(final(self).store(), id@)
                    && store_find(final(self).store(), id@) is None && (forall|p: Seq<char>|
                    p != id@ ==> #[trigger] store_find(final(self).store(), p) == store_find(
                        old(self).store(),
                        p,
                    )) && (forall|p: Seq<char>|
                    p != id@ ==> #[trigger] cache_find(final(self).cache(), p) == cache_find(
                        old(self).cache(),
                        p,
                    )),
                Err(e) => e is ConnectionNotFound && !has_id(old(self).store(), id@)
                    && final(self).store() == old(self).store()
                    && final(self).cache() == old(self).cache(),
            },
    {
        let ghost old_cache = self.cache();
        let ghost old_store = self.store();
        // evict the cached pool first
        let pool_idx = self.find_pool_idx(id);
        match pool_idx {
            Some(i) => {
                self.pools.remove(i);
                proof {
                    assert(self.cache() =~= old_cache.remove(i as int));
                    lemma_cache_gone_after_remove(old_cache, id@, i as int);
                }
            },
            None => {},
        }
        let ghost mid_cache = self.cache();
        proof {
            // every remaining cache entry is an old entry under a key other
            // than `id`
            match pool_idx {
                Some(i) => old_cache.remove_ensures(i as int),
                None => (),
            }
            assert forall|j: int| 0 <= j < mid_cache.len() implies cache_has(
                old_cache,
                #[trigger] mid_cache[j].0,
            ) && mid_cache[j].0 != id@ by {
                match pool_idx {
                    Some(i) => {
                        if j < i as int {
                            assert(mid_cache[j] == old_cache[j]);
                        } else {
                            assert(mid_cache[j] == old_cache[j + 1]);
                        }
                    },
                    None => {
                        assert(mid_cache[j] == old_cache[j]);
                    },
                }
            }
        }
        match self.find_conn_idx(id) {
            Some(i) => {
                self.connections.remove(i);
                proof {
                    assert(self.store() =~= old_store.remove(i as int));
                    lemma_store_gone_after_remove(old_store, id@, i as int);
                    if pool_idx is None {
                        lemma_cache_find_none(mid_cache, id@);
                    }
                    // remaining cached ids differ from `id`, so they stay
                    // backed by stored metadata
                    assert forall|j: int| 0 <= j < self.cache().len() implies has_id(
                        self.store(),
                        #[trigger] self.cache()[j].0,
                    ) by {
                        let p = self.cache()[j].0;
                        let k = choose|k: int| 0 <= k < old_cache.len() && old_cache[k].0 == p;
                        assert(has_id(old_store, old_cache[k].0));
                    }
                }
                Ok(())
            },
            None => {
                proof {
                    // a cached pool always has stored metadata, so nothing
                    // was evicted above
                    match pool_idx {
                        Some(i) => {
                            assert(has_id(old_store, old_cache[i as int].0));
                        },
                        None => {},
                    }
                    lemma_cache_find_none(mid_cache, id@);
                }
                Err(AppError::ConnectionNotFound(id.to_owned()))
            },
        }
    }

    /// Computes the pool statistics for a connection. `gauge` is the
    /// runtime's sample of the live pool's size and idle count for this id
    /// (ignored where no sized pool is cached). A connection with no live
    /// pool reports `is_connected == false` rather than an error.
    pub fn get_pool_stats(&self, id: &str, gauge: &PoolGauge) -> (r: ConnectionPoolStats)
        requires
            gauge.num_idle <= gauge.size,
        ensures
            r == spec_pool_stats(self.cfg(), cache_find(self.cache(), id@), *gauge),
    {
        match self.find_pool_idx(id) {
            Some(i) => match self.pools[i].pool {
                DatabasePool::MySQL | DatabasePool::Postgres => ConnectionPoolStats {
                    active: gauge.size - gauge.num_idle,
                    idle: gauge.num_idle,
                    max_size: self.config.max_connections,
                    is_connected: true,
                },
                DatabasePool::SQLite => ConnectionPoolStats {
                    active: gauge.size - gauge.num_idle,
                    idle: gauge.num_idle,
                    max_size: 1,
                    is_connected: true,
                },
                DatabasePool::Redis => ConnectionPoolStats {
                    active: 1,
                    idle: 0,
                    max_size: 1,
                    is_connected: true,
                },
                DatabasePool::Unsupported => ConnectionPoolStats {
                    active: 0,
                    idle: 0,
                    max_size: 0,
                    is_connected: false,
                },
            },
            None => ConnectionPoolStats {
                active: 0,
                idle: 0,
                max_size: self.config.max_connections,
                is_connected: false,
            },
        }
    }

    /// Decides how server statistics are read for a connection: which
    /// backend introspection to run, or the ready answer for an embedded
    /// backend. Fails with `ConnectionNotFound` when no pool is cached, and
    /// with `UnsupportedDatabaseType` for the unsupported marker.
    pub fn get_database_stats(&self, id: &str) -> (r: Result<StatsPlan, AppError>)
        ensures
            match cache_find(self.cache(), id@) {
                None => r matches Err(e) && e is ConnectionNotFound,
                Some(DatabasePool::MySQL) => r matches Ok(p) && p is FetchMySql,
                Some(DatabasePool::Postgres) => r matches Ok(p) && p is FetchPostgres,
                Some(DatabasePool::Redis) => r matches Ok(p) && p is FetchRedis,
                Some(DatabasePool::SQLite) => r matches Ok(StatsPlan::Ready(s)) && stats_view(s)
                    == sqlite_stats_view() && s.extra@ == Seq::<NameValue>::empty(),
                Some(DatabasePool::Unsupported) => r matches Err(e) && e
                    is UnsupportedDatabaseType,
            },
    {
        match self.find_pool_idx(id) {
            None => Err(AppError::ConnectionNotFound(id.to_owned())),
            Some(i) => match self.pools[i].pool {
                DatabasePool::MySQL => Ok(StatsPlan::FetchMySql),
                DatabasePool::Postgres => Ok(StatsPlan::FetchPostgres),
                DatabasePool::Redis => Ok(StatsPlan::FetchRedis),
                DatabasePool::SQLite => {
                    let mut s = DatabaseStats::default();
                    s.server_version = Some("SQLite (embedded)".to_owned());
                    proof {
                        assert(stats_view(s) =~= sqlite_stats_view());
                    }
                    Ok(StatsPlan::Ready(s))
                },
                DatabasePool::Unsupported => Err(
                    AppError::UnsupportedDatabaseType("Monitoring not supported".to_owned()),
                ),
            },
        }
    }

    /// Decides how the process listing is read for a connection: backends
    /// without a process inspection facility answer the empty list rather
    /// than an error.
    pub fn get_processes(&self, id: &str) -> (r: Result<ProcessPlan, AppError>)
        ensures
            match cache_find(self.cache(), id@) {
                None => r matches Err(e) && e is ConnectionNotFound,
                Some(DatabasePool::MySQL) => r matches Ok(p) && p is FetchMySql,
                Some(DatabasePool::Postgres) => r matches Ok(p) && p is FetchPostgres,
                Some(_) => r matches Ok(ProcessPlan::Ready(v)) && v@ == Seq::<
                    ProcessInfo,
                >::empty(),
            },
    {
        match self.find_pool_idx(id) {
            None => Err(AppError::ConnectionNotFound(id.to_owned())),
            Some(i) => match self.pools[i].pool {
                DatabasePool::MySQL => Ok(ProcessPlan::FetchMySql),
                DatabasePool::Postgres => Ok(ProcessPlan::FetchPostgres),
                _ => Ok(ProcessPlan::Ready(Vec::new())),
            },
        }
    }

    /// Decides how the server's database listing is read for a connection:
    /// backends without such a catalog answer the empty list rather than an
    /// error.
    pub fn get_databases(&self, id: &str) -> (r: Result<DatabasesPlan, AppError>)
        ensures
            match cache_find(self.cache(), id@) {
                None => r matches Err(e) && e is ConnectionNotFound,
                Some(DatabasePool::MySQL) => r matches Ok(p) && p is FetchMySql,
                Some(DatabasePool::Postgres) => r matches Ok(p) && p is FetchPostgres,
                Some(_) => r matches Ok(DatabasesPlan::Ready(v)) && v@ == Seq::<
                    DatabaseInfo,
                >::empty(),
            },
    {
        match self.find_pool_idx(id) {
            None => Err(AppError::ConnectionNotFound(id.to_owned())),
            Some(i) => match self.pools[i].pool {
                DatabasePool::MySQL => Ok(DatabasesPlan::FetchMySql),
                DatabasePool::Postgres => Ok(DatabasesPlan::FetchPostgres),
                _ => Ok(DatabasesPlan::Ready(Vec::new())),
            },
        }
    }

    /// Combines the stored metadata, the fetched server statistics
    /// (`fetched` is `None` when the read failed, and the stats default
    /// rather than propagate the failure), and the pool statistics into one
    /// snapshot with a fresh timestamp. Fails only when no metadata is
    /// stored under the id.
    pub fn get_monitor_overview(
        &self,
        id: &str,
        fetched: Option<DatabaseStats>,
        gauge: &PoolGauge,
    ) -> (r: Result<MonitorOverview, AppError>)
        requires
            gauge.num_idle <= gauge.size,
        ensures
            match store_find(self.store(), id@) {
                None => r matches Err(e) && e is ConnectionNotFound,
                Some(c) => r matches Ok(o) && o.connection_id@ == id@ && o.connection_name
                    == c.name && o.db_type@ == c.db_type.spec_label() && (match fetched {
                    Some(s) => o.stats == s,
                    None => o.stats.is_default(),
                }) && o.pool == spec_pool_stats(self.cfg(), cache_find(self.cache(), id@), *gauge)
                    && o.timestamp@.len() > 0,
            },
    {
        let ci = match self.find_conn_idx(id) {
            Some(i) => i,
            None => {
                return Err(AppError::ConnectionNotFound(id.to_owned()));
            },
        };
        let stats = match fetched {
            Some(s) => s,
            None => DatabaseStats::default(),
        };
        let pool = self.get_pool_stats(id, gauge);
        Ok(
            MonitorOverview {
                connection_id: id.to_owned(),
                connection_name: self.connections[ci].name.clone(),
                db_type: self.connections[ci].db_type.as_label().to_owned(),
                stats,
                pool,
                timestamp: crate::clock::now_rfc3339(),
            },
        )
    }
}

/// What reading server statistics asks of the runtime: run the named
/// backend's introspection (feeding the output through the matching
/// aggregator), or use the ready answer.
pub enum StatsPlan {
    Ready(DatabaseStats),
    FetchMySql,
    FetchPostgres,
    FetchRedis,
}

/// What reading the process listing asks of the runtime.
pub enum ProcessPlan {
    Ready(Vec<ProcessInfo>),
    FetchMySql,
    FetchPostgres,
}

/// What reading the database listing asks of the runtime.
pub enum DatabasesPlan {
    Ready(Vec<DatabaseInfo>),
    FetchMySql,
    FetchPostgres,
}

/// A runtime sample of a live pool's gauges: `size` connections exist,
/// `num_idle` of them idle.
#[derive(Clone, Copy, PartialEq, Eq, Structural, Debug)]
pub struct PoolGauge {
    pub size: u32,
    pub num_idle: u32,
}

/// The pool statistics read for a cached marker: sized pools report their
/// gauges against the configured maximum, the embedded backend against its
/// single-connection pool, and a connection with no live pool reports
/// disconnected zeros.
pub open spec fn spec_pool_stats(
    cfg: ManagerConfig,
    cached: Option<DatabasePool>,
    g: PoolGauge,
) -> ConnectionPoolStats {
    match cached {
        Some(DatabasePool::MySQL) | Some(DatabasePool::Postgres) => ConnectionPoolStats {
            active: (g.size - g.num_idle) as u32,
            idle: g.num_idle,
            max_size: cfg.max_connections,
            is_connected: true,
        },
        Some(DatabasePool::SQLite) => ConnectionPoolStats {
            active: (g.size - g.num_idle) as u32,
            idle: g.num_idle,
            max_size: 1u32,
            is_connected: true,
        },
        Some(DatabasePool::Redis) => ConnectionPoolStats {
            active: 1u32,
            idle: 0u32,
            max_size: 1u32,
            is_connected: true,
        },
        Some(DatabasePool::Unsupported) => ConnectionPoolStats {
            active: 0u32,
            idle: 0u32,
            max_size: 0u32,
            is_connected: false,
        },
        None => ConnectionPoolStats {
            active: 0u32,
            idle: 0u32,
            max_size: cfg.max_connections,
            is_connected: false,
        },
    }
}

/// The ready statistics of the embedded backend: defaults with a version
/// label.
pub open spec fn sqlite_stats_view() -> StatsView {
    StatsView { server_version: Some("SQLite (embedded)"@), ..default_view() }
}

// ---- laws ----

/// Law: registering a configuration under a fresh id and then looking that
/// id up yields exactly the stored configuration, and its outward summary
/// carries the request's name and backend kind (the summary type holds no
/// password at all). This holds whatever the dial outcome was, since
/// registration alone changes the store.
pub proof fn lemma_register_then_lookup(store: Seq<ConnectionConfig>, config: ConnectionConfig)
    requires
        unique_ids(store),
        !has_id(store, config.id@),
    ensures
        store_find(spec_register(store, config), config.id@) == Some(config),
        ({
            let item = <crate::connection::ConnectionItem as vstd::std_specs::convert::FromSpec<
                ConnectionConfig,
            >>::from_spec(config);
            item.id == config.id && item.name == config.name && item.db_type == config.db_type
                && item.created_at == config.created_at
        }),
{
    lemma_register_keeps(store, config);
}

/// Law: deleting a connection removes both the stored metadata and any
/// cached pool, so a later `test`, `get` or monitoring call on the id
/// resolves to nothing (those operations branch on exactly these lookups
/// and answer `ConnectionNotFound` when both are empty), while every other
/// connection's lookups are untouched.
pub proof fn lemma_delete_then_lookup_fails(
    store: Seq<ConnectionConfig>,
    cache: Seq<CacheEntry>,
    id: Seq<char>,
    i: int,
    j: int,
)
    requires
        unique_ids(store),
        unique_keys(cache),
        0 <= i < store.len(),
        store[i].id@ == id,
        0 <= j < cache.len(),
        cache[j].0 == id,
    ensures
        store_find(store.remove(i), id) is None,
        !has_id(store.remove(i), id),
        cache_find(cache.remove(j), id) is None,
        !cache_has(cache.remove(j), id),
        forall|p: Seq<char>|
            p != id ==> #[trigger] store_find(store.remove(i), p) == store_find(store, p),
        forall|p: Seq<char>|
            p != id ==> #[trigger] cache_find(cache.remove(j), p) == cache_find(cache, p),
{
    lemma_store_gone_after_remove(store, id, i);
    lemma_cache_gone_after_remove(cache, id, j);
}

/// Law: a connection registered while its backend is unreachable (the dial
/// failed, so nothing is cached) still has its metadata stored under its
/// id; the test path finds that metadata again, and a later successful dial
/// completion caches the pool of the configured kind — self-healing without
/// re-registration.
pub proof fn lemma_self_healing(
    store: Seq<ConnectionConfig>,
    cache: Seq<CacheEntry>,
    config: ConnectionConfig,
)
    requires
        unique_ids(store),
        !has_id(store, config.id@),
        !cache_has(cache, config.id@),
    ensures
        store_find(spec_register(store, config), config.id@) == Some(config),
        cache_find(
            cache_insert(cache, config.id@, spec_kind_of(config.db_type)),
            config.id@,
        ) == Some(spec_kind_of(config.db_type)),
{
    lemma_register_keeps(store, config);
    let k = spec_kind_of(config.db_type);
    let m2 = cache_insert(cache, config.id@, k);
    assert(m2 == cache.push((config.id@, k)));
    assert(m2[cache.len() as int].0 == config.id@);
    assert forall|x: int| 0 <= x < cache.len() implies m2[x].0 != config.id@ by {
        assert(m2[x] == cache[x]);
    }
    lemma_cache_find_at(m2, config.id@, cache.len() as int);
}

/// Law: pool creation for one id cannot install two pools. The guarded
/// insert that every dial completion goes through is idempotent per id: the
/// first completion installs the only pool, a second (whatever kind it
/// reports) observes the first's result unchanged, and key uniqueness is
/// preserved throughout.
pub proof fn lemma_at_most_one_pool(
    cache: Seq<CacheEntry>,
    id: Seq<char>,
    k1: DatabasePool,
    k2: DatabasePool,
)
    requires
        unique_keys(cache),
        !cache_has(cache, id),
    ensures
        ({
            let m1 = cache_insert(cache, id, k1);
            cache_insert(m1, id, k2) == m1 && cache_find(m1, id) == Some(k1) && unique_keys(m1)
        }),
{
    let m1 = cache_insert(cache, id, k1);
    assert(m1 == cache.push((id, k1)));
    assert(m1[cache.len() as int].0 == id);
    assert(cache_has(m1, id));
    assert forall|x: int| 0 <= x < cache.len() implies m1[x].0 != id by {
        assert(m1[x] == cache[x]);
    }
    lemma_cache_find_at(m1, id, cache.len() as int);
    assert forall|a: int, b: int| 0 <= a < b < m1.len() implies m1[a].0 != m1[b].0 by {
        assert(m1[a] == cache[a]);
        if b < cache.len() {
            assert(m1[b] == cache[b]);
        }
    }
}

} // verus!

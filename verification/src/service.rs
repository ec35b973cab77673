//! The connection management service: the operations the HTTP layer
//! consumes, over one owned [`PoolManager`].

use vstd::prelude::*;
use crate::connection::{ConnectionConfig, ConnectionItem, CreateConnectionRequest};
use crate::errors::AppError;
use crate::ids::IdGenerator;
use crate::clock::now_rfc3339;
use crate::pool_manager::{PoolManager, ConnectPlan, TestPlan, DatabasePool, has_id, store_find,
    cache_find, plan_err_for, plan_ok_for, spec_register, cache_insert, lemma_register_keeps,
    lemma_at_most_one_pool};

verus! {

/// The outward summary a stored configuration projects to.
pub open spec fn summary_of(c: ConnectionConfig) -> ConnectionItem {
    <ConnectionItem as vstd::std_specs::convert::FromSpec<ConnectionConfig>>::from_spec(c)
}

/// Database connection management service.
pub struct ConnectionService {
    /// The managed state; the embedding runtime reports dial outcomes to it
    /// through [`PoolManager::complete_connect`].
    pub manager: PoolManager,
}

impl ConnectionService {
    /// Creates a new connection service around a manager.
    pub fn new(manager: PoolManager) -> (r: Self)
        ensures
            r.manager == manager,
    {
        ConnectionService { manager }
    }

    /// Lists all stored connections as outward summaries (passwords
    /// excluded), newest first.
    pub fn list(&self) -> (r: Vec<ConnectionItem>)
        ensures
            r@.len() == self.manager.store().len(),
            forall|i: int|
                0 <= i < r@.len() ==> r@[i] == summary_of(#[trigger] self.manager.store()[i]),
    {
        let ghost all = self.manager.store();
        let mut configs = self.manager.list_connections();
        let mut out: Vec<ConnectionItem> = Vec::new();
        while configs.len() > 0
            invariant
                out@.len() + configs@.len() == all.len(),
                configs@ =~= all.skip(out@.len() as int),
                forall|i: int| 0 <= i < out@.len() ==> out@[i] == summary_of(#[trigger] all[i]),
            decreases configs@.len(),
        {
            let ghost n = out@.len() as int;
            let c = configs.remove(0);
            proof {
                assert(c == all[n]);
            }
            out.push(ConnectionItem::from(c));
            proof {
                assert(configs@ =~= all.skip(n + 1));
            }
        }
        out
    }

    /// Creates a new connection: assigns a fresh id and creation timestamp,
    /// persists the configuration, and returns the outward summary along
    /// with the dial plan for the runtime, if there is one. A name outside
    /// 1 to 100 characters is rejected with `Validation`; registration
    /// itself succeeds whether or not the backend is reachable.
    pub fn create(&mut self, req: CreateConnectionRequest) -> (r: Result<
        (ConnectionItem, Option<ConnectPlan>),
        AppError,
    >)
        requires
            old(self).manager.wf(),
        ensures
            final(self).manager.wf(),
            final(self).manager.cfg() == old(self).manager.cfg(),
            match r {
                Err(e) => final(self).manager.store() == old(self).manager.store()
                    && final(self).manager.cache() == old(self).manager.cache() && ((e is Validation
                    && !req.spec_valid()) || (e is DuplicateId && req.spec_valid())),
                Ok((item, plan_opt)) => req.spec_valid() && item.name == req.name && item.db_type
                    == req.db_type && item.id@.len() == 36 && item.created_at@.len() > 0
                    && !has_id(old(self).manager.store(), item.id@) && (store_find(
                    final(self).manager.store(),
                    item.id@,
                ) matches Some(c) && c.id == item.id && c.name == req.name && c.db_type
                    == req.db_type && c.host == req.host && c.port == (if req.port is Some {
                    req.port
                } else {
                    req.db_type.spec_default_port()
                }) && c.username == req.username && c.password == req.password && c.database
                    == req.database && c.file_path == req.file_path && c.created_at
                    == item.created_at && final(self).manager.store() == spec_register(
                    old(self).manager.store(),
                    c,
                ) && (if !req.db_type.spec_supported() {
                    plan_opt is None && cache_find(final(self).manager.cache(), item.id@) == Some(
                        DatabasePool::Unsupported,
                    )
                } else if plan_err_for(c) {
                    plan_opt is None && final(self).manager.cache() == old(self).manager.cache()
                } else {
                    (plan_opt matches Some(plan) && plan_ok_for(plan, c, old(self).manager.cfg()))
                        && final(self).manager.cache() == old(self).manager.cache()
                })),
            },
    {
        match req.validate() {
            Ok(_) => {},
            Err(e) => {
                return Err(e);
            },
        }
        let id = IdGenerator::connection_id();
        let created_at = now_rfc3339();
        let config = req.into_config(id, created_at);
        let item = ConnectionItem::from(config.clone());
        let ghost old_store = self.manager.store();
        let ghost old_cache = self.manager.cache();
        match self.manager.add_connection(config) {
            Err(e) => Err(e),
            Ok(plan_opt) => {
                proof {
                    lemma_register_keeps(old_store, config);
                    if !req.db_type.spec_supported() {
                        // the fresh id was not cached, so the marker insert
                        // is visible under it
                        if crate::pool_manager::cache_has(old_cache, config.id@) {
                            let i = choose|i: int|
                                0 <= i < old_cache.len() && old_cache[i].0 == config.id@;
                            assert(has_id(old_store, old_cache[i].0));
                        }
                        lemma_at_most_one_pool(
                            old_cache,
                            config.id@,
                            DatabasePool::Unsupported,
                            DatabasePool::Unsupported,
                        );
                    }
                }
                Ok((item, plan_opt))
            },
        }
    }

    /// Gets one connection's outward summary by id.
    pub fn get(&self, id: &str) -> (r: Result<ConnectionItem, AppError>)
        ensures
            match store_find(self.manager.store(), id@) {
                Some(c) => r matches Ok(item) && item == summary_of(c),
                None => r matches Err(e) && e is ConnectionNotFound,
            },
    {
        match self.manager.get_connection(id) {
            Some(c) => Ok(ConnectionItem::from(c)),
            None => Err(AppError::ConnectionNotFound(id.to_owned())),
        }
    }

    /// Deletes a connection: evicts any cached pool, then removes the
    /// metadata; `ConnectionNotFound` when no metadata is stored.
    pub fn delete(&mut self, id: &str) -> (r: Result<(), AppError>)
        requires
            old(self).manager.wf(),
        ensures
            final(self).manager.wf(),
            final(self).manager.cfg() == old(self).manager.cfg(),
            !crate::pool_manager::cache_has(final(self).manager.cache(), id@),
            match r {
                Ok(_) => has_id(old(self).manager.store(), id@)
                    && !has_id(final(self).manager.store(), id@)
                    && store_find(final(self).manager.store(), id@) is None
                    && cache_find(final(self).manager.cache(), id@) is None,
                Err(e) => e is ConnectionNotFound && !has_id(old(self).manager.store(), id@)
                    && final(self).manager.store() == old(self).manager.store()
                    && final(self).manager.cache() == old(self).manager.cache(),
            },
    {
        self.manager.remove_connection(id)
    }

    /// Decides a connection test; the runtime executes the plan and, on the
    /// self-healing path, reports the dial outcome through
    /// [`PoolManager::complete_connect`] before pinging.
    pub fn test(&mut self, id: &str) -> (r: Result<TestPlan, AppError>)
        requires
            old(self).manager.wf(),
        ensures
            final(self).manager.wf(),
            final(self).manager.store() == old(self).manager.store(),
            final(self).manager.cfg() == old(self).manager.cfg(),
            match cache_find(old(self).manager.cache(), id@) {
                Some(DatabasePool::Unsupported) => r matches Err(e) && e
                    is UnsupportedDatabaseType
                    && final(self).manager.cache() == old(self).manager.cache(),
                Some(k) => r matches Ok(TestPlan::Ping(k2)) && k2 == k
                    && final(self).manager.cache() == old(self).manager.cache(),
                None => match store_find(old(self).manager.store(), id@) {
                    None => r matches Err(e) && e is ConnectionNotFound
                        && final(self).manager.cache() == old(self).manager.cache(),
                    Some(c) => (if plan_err_for(c) {
                        r matches Err(e) && e is Validation
                            && final(self).manager.cache() == old(self).manager.cache()
                    } else if !c.db_type.spec_supported() {
                        r matches Err(e) && e is UnsupportedDatabaseType
                            && final(self).manager.cache() == cache_insert(
                            old(self).manager.cache(),
                            id@,
                            DatabasePool::Unsupported,
                        )
                    } else {
                        r matches Ok(TestPlan::ConnectThenPing(plan)) && plan_ok_for(
                            plan,
                            c,
                            old(self).manager.cfg(),
                        ) && final(self).manager.cache() == old(self).manager.cache()
                    }),
                },
            },
    {
        self.manager.test_connection(id)
    }
}

} // verus!

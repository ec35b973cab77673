//! Multi-backend database connection pool manager.
//!
//! The library keeps the metadata store and the pool cache of a connection
//! manager as plain verified data, decides every operation (registration,
//! self-healing connection tests, removal, monitoring) as a state machine,
//! and translates backend-specific introspection output into one statistics
//! schema. Network and disk work is left to the embedding program, which
//! feeds each outcome back into the manager as an event.

pub mod errors;
pub mod db_type;
pub mod text;
pub mod connection;
pub mod monitor;
pub mod stats;
pub mod pool_manager;
pub mod ids;
mod clock;
pub mod service;
pub mod sql_validator;
pub mod request_id;
pub mod response;
pub mod query;
pub mod health;

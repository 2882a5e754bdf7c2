//! A minimal health-check service core: a liveness probe that always reports
//! success, a database-backed readiness probe that collapses every failure of
//! a trivial query into a single error status, and a lazily-initialized
//! PostgreSQL connection pool built from a static configuration.

mod config;
mod health;
mod pool;

pub use config::DatabaseConfig;
pub use health::HealthStatus;
pub use health::health_check;
pub use health::health_check_db;
pub use health::liveness_status;
pub use health::readiness_status;
pub use health::lemma_health_checks_idempotent;
pub use pool::DbPool;
pub use pool::connect_database_with;

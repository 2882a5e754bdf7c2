//! Construction of the lazily-initialized PostgreSQL connection pool.

use vstd::prelude::*;
use crate::config::DatabaseConfig;

verus! {

/// An opaque, shareable handle to zero-or-more PostgreSQL connections, owned
/// jointly by all request handlers for the process lifetime. The underlying
/// pool is held as a plain field so that the serving layer can borrow it to
/// run queries; nothing here reads into it.
#[verifier::external_body]
pub struct DbPool {
    pub pool: sqlx::PgPool,
}

/// Builds the connection pool from the configuration.
///
/// Relies on the `PgConnectOptions` builder (`new`, then `host`, `port`,
/// `username`, `password`, `database`, each copying its argument verbatim into
/// the options) and on `PoolOptions::connect_lazy_with`, which creates the
/// pool without attempting any connection: network I/O is deferred to the
/// first query, so construction never fails, even while the database is
/// unreachable. With `max_lifetime` and `idle_timeout` unset (and the default
/// of zero minimum connections), `connect_lazy_with` spawns no maintenance
/// task either, so the call returns a pool in every context, with or without
/// an async runtime.
#[verifier::external_body]
pub fn connect_database_with(cfg: DatabaseConfig) -> DbPool {
    let options = sqlx::postgres::PgConnectOptions::new()
        .host(&cfg.host)
        .port(cfg.port)
        .username(&cfg.username)
        .password(&cfg.password)
        .database(&cfg.database);
    DbPool {
        pool: sqlx::pool::PoolOptions::new()
            .max_lifetime(None)
            .idle_timeout(None)
            .connect_lazy_with(options),
    }
}

} // verus!

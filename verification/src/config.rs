//! Static description of the database connection parameters.

use vstd::prelude::*;

verus! {

/// Connection parameters for the PostgreSQL database: where it listens, the
/// credentials to present, and the database name to open. Immutable once
/// constructed; no validation is performed here (an unreachable host or a
/// closed port surfaces later, as a failure of the first query).
pub struct DatabaseConfig {
    pub host: String,
    pub port: u16,
    pub username: String,
    pub password: String,
    pub database: String,
}

impl DatabaseConfig {
    /// Collects the five connection parameters, each kept verbatim.
    pub fn new(
        host: String,
        port: u16,
        username: String,
        password: String,
        database: String,
    ) -> (cfg: DatabaseConfig)
        ensures
            cfg.host@ == host@,
            cfg.port == port,
            cfg.username@ == username@,
            cfg.password@ == password@,
            cfg.database@ == database@,
    {
        DatabaseConfig { host, port, username, password, database }
    }
}

} // verus!

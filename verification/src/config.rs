//! Where the PostgreSQL server is, and who connects to it.

use vstd::prelude::*;

verus! {

/// The port that a configuration names where nothing else is said.
pub const DEFAULT_PG_PORT: u16 = 1234;

/// The settings of a connection to the PostgreSQL server.
#[derive(Debug, Clone, PartialEq, Eq)]
pub struct PGConfig {
    pub pg_host: String,
    pub pg_port: u16,
    pub pg_user: String,
    pub pg_password: String,
    pub pg_database: String,
}

impl Default for PGConfig {
    /// No host, user, password or database, and the default port.
    fn default() -> (config: PGConfig)
        ensures
            config.pg_host@ == Seq::<char>::empty(),
            config.pg_port == DEFAULT_PG_PORT,
            config.pg_user@ == Seq::<char>::empty(),
            config.pg_password@ == Seq::<char>::empty(),
            config.pg_database@ == Seq::<char>::empty(),
    {
        PGConfig {
            pg_host: String::new(),
            pg_port: DEFAULT_PG_PORT,
            pg_user: String::new(),
            pg_password: String::new(),
            pg_database: String::new(),
        }
    }
}

} // verus!

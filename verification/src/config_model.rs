//! Configuration of the surrounding service, as plain values.  Loading
//! from the process environment is the surrounding program's business; the
//! core only carries the result.

use vstd::prelude::*;
use crate::stage::Stage;

verus! {

/// The whole service configuration.
pub struct AppConfig {
    pub stage: Stage,
    pub server: Server,
    pub database: Database,
    pub adventurers_secret: AdventurersSecret,
    pub guild_commanders_secret: GuildCommandersSecret,
}

/// HTTP server settings.
pub struct Server {
    pub port: u16,
    pub body_limit: u64,
    pub timeout: u64,
}

/// Persistence settings.
pub struct Database {
    pub url: String,
}

/// Signing secrets for adventurer credentials.
pub struct AdventurersSecret {
    pub secret: String,
    pub refresh_secret: String,
}

/// Signing secrets for guild commander credentials.
pub struct GuildCommandersSecret {
    pub secret: String,
    pub refresh_secret: String,
}

} // verus!

use vstd::prelude::*;

verus! {

/// Connection parameters for the backing data store. The driver name selects
/// a backend in the driver factory; the remaining fields are opaque strings
/// consumed by a concrete backend, never interpreted by the core.
pub struct Database {
    pub driver: String,
    pub address: String,
    pub username: String,
    pub password: String,
}

/// Scheduling parameters: how many seconds pass between two ticks.
pub struct Poller {
    pub poll_interval: u64,
}

/// Process-wide, immutable-after-load settings. Constructed once at startup
/// from merged defaults, an optional file and environment overrides (the
/// merging itself is an external collaborator), then only read: the
/// scheduling loop and every fetch unit see the same record.
pub struct Settings {
    pub database: Database,
    pub poller: Poller,
}

/// Startup-fatal configuration failure: a malformed value made it through
/// the merge. A missing optional source is never an error, and neither is an
/// unrecognized driver name, which merely degrades to the no-op driver.
#[derive(Debug)]
pub enum ConfigError {
    NonPositivePollInterval,
}

impl Settings {
    /// A well-formed record: the poll interval is a positive number of
    /// seconds, so the scheduler always makes progress between ticks.
    pub open spec fn wf(self) -> bool {
        1 <= self.poller.poll_interval
    }

    /// Checked constructor over already-merged plain values: accepts exactly
    /// the records with a positive poll interval and rejects the rest as a
    /// startup-fatal `ConfigError`.
    pub fn new(database: Database, poller: Poller) -> (r: Result<Settings, ConfigError>)
        ensures
            1 <= poller.poll_interval ==> (r matches Ok(s) && s == (Settings {
                database,
                poller,
            }) && s.wf()),
            poller.poll_interval == 0 ==> (r matches Err(e) && e
                == ConfigError::NonPositivePollInterval),
    {
        if poller.poll_interval == 0 {
            Err(ConfigError::NonPositivePollInterval)
        } else {
            Ok(Settings { database, poller })
        }
    }
}

impl Default for Settings {
    /// The built-in defaults, the lowest-priority configuration source:
    /// poll every 15 seconds against a local PostgreSQL endpoint.
    fn default() -> (s: Settings)
        ensures
            s.wf(),
            s.poller.poll_interval == 15,
            s.database.driver@ == "postgresql"@,
            s.database.address@ == "localhost:5432"@,
            s.database.username@ == "postgres"@,
            s.database.password@ == "root"@,
    {
        Settings {
            database: Database {
                driver: "postgresql".to_owned(),
                address: "localhost:5432".to_owned(),
                username: "postgres".to_owned(),
                password: "root".to_owned(),
            },
            poller: Poller { poll_interval: 15 },
        }
    }
}

} // verus!

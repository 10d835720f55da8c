//! Runtime options of the connection pool, identical for a new and an existing store.
use vstd::prelude::*;

verus! {

/// How the store journals its writes.
#[derive(Clone, Copy, Debug, PartialEq, Eq, Structural)]
pub enum JournalMode {
    Delete,
    Truncate,
    Persist,
    Memory,
    Wal,
    Off,
}

/// Whether a connection keeps the store's file lock between transactions.
#[derive(Clone, Copy, Debug, PartialEq, Eq, Structural)]
pub enum LockingMode {
    Normal,
    Exclusive,
}

/// When the store forces written data to durable storage.
#[derive(Clone, Copy, Debug, PartialEq, Eq, Structural)]
pub enum Synchronous {
    Off,
    Normal,
    Full,
    Extra,
}

/// Severity at which a message is logged.
#[derive(Clone, Copy, Debug, PartialEq, Eq, Structural)]
pub enum LogLevel {
    Off,
    Error,
    Warn,
    Info,
    Debug,
    Trace,
}

/// Everything the pool is configured with.
#[derive(Clone, Copy, Debug, PartialEq, Eq, Structural)]
pub struct PoolSettings {
    /// Most connections open at once.
    pub max_connections: u32,
    /// Seconds after which a connection is recycled; `None` keeps it forever.
    pub max_lifetime_secs: Option<u64>,
    pub journal_mode: JournalMode,
    pub locking_mode: LockingMode,
    pub synchronous: Synchronous,
    /// Level at which a slow statement is logged.
    pub slow_statement_level: LogLevel,
    /// A statement that runs for at least this many seconds counts as slow.
    pub slow_statement_secs: u64,
}

/// One connection: the single-file store serialises writers.
pub const MAX_CONNECTIONS: u32 = 1;

/// Threshold of the slow-statement log, in seconds.
pub const SLOW_STATEMENT_SECS: u64 = 5;

/// The settings of every pool opened on the store.
pub open spec fn store_settings_spec() -> PoolSettings {
    PoolSettings {
        max_connections: 1,
        max_lifetime_secs: None,
        journal_mode: JournalMode::Wal,
        locking_mode: LockingMode::Exclusive,
        synchronous: Synchronous::Normal,
        slow_statement_level: LogLevel::Warn,
        slow_statement_secs: 5,
    }
}

/// The pool settings: one connection kept open indefinitely, write-ahead
/// journal, exclusive locking, a flush at each transaction boundary, and a
/// warning for each statement that takes five seconds or more.
pub fn store_settings() -> (r: PoolSettings)
    ensures
        r == store_settings_spec(),
        r.max_connections == 1,
        r.max_lifetime_secs is None,
        r.journal_mode == JournalMode::Wal,
        r.locking_mode == LockingMode::Exclusive,
        r.synchronous == Synchronous::Normal,
        r.slow_statement_level == LogLevel::Warn,
        r.slow_statement_secs == 5,
{
    PoolSettings {
        max_connections: MAX_CONNECTIONS,
        max_lifetime_secs: None,
        journal_mode: JournalMode::Wal,
        locking_mode: LockingMode::Exclusive,
        synchronous: Synchronous::Normal,
        slow_statement_level: LogLevel::Warn,
        slow_statement_secs: SLOW_STATEMENT_SECS,
    }
}

} // verus!

use catalog_store::bootstrap::{Action, Bootstrap, Event, Phase, Stage, Warning};
use catalog_store::location::{directory_to_create, DIRECTORY_MODE};
use catalog_store::schema::create_schema_sql;
use catalog_store::settings::{store_settings, PoolSettings};

fn expect_open_pool(action: &Action) -> PoolSettings {
    match action {
        Action::OpenPool { settings } => *settings,
        other => panic!("expected OpenPool, got {:?}", other),
    }
}

#[test]
fn fresh_store_creates_directory_store_pool_and_tables() {
    let (mut b, first) = Bootstrap::start("./data/catalog.db");
    assert!(matches!(first, Action::ProbeStore));
    assert_eq!(b.phase(), Phase::Probing);

    let s = b.step(Event::Probed { exists: false });
    match &s.action {
        Action::CreateDirectory { path, mode } => {
            assert_eq!(path, "./data");
            assert_eq!(*mode, 0o777);
        }
        other => panic!("expected CreateDirectory, got {:?}", other),
    }
    assert_eq!(s.warning, None);
    assert_eq!(b.phase(), Phase::PreparingDirectory);

    let s = b.step(Event::DirectoryCreated);
    assert!(matches!(s.action, Action::CreateStore));
    assert_eq!(s.warning, None);

    let s = b.step(Event::StoreCreated);
    assert_eq!(expect_open_pool(&s.action), store_settings());
    assert_eq!(b.phase(), Phase::OpeningPool { fresh: true });

    let s = b.step(Event::PoolOpened);
    match &s.action {
        Action::ExecuteSchema { sql } => {
            assert_eq!(*sql, create_schema_sql());
            assert!(sql.contains("CREATE TABLE Entry ("));
            assert!(sql.contains("CREATE TABLE Tag ("));
            assert!(sql.contains("CREATE TABLE Entry_Tag ("));
            assert_eq!(sql.matches("CREATE TABLE").count(), 3);
        }
        other => panic!("expected ExecuteSchema, got {:?}", other),
    }

    let s = b.step(Event::SchemaCreated);
    assert!(matches!(s.action, Action::ReturnPool));
    assert_eq!(b.phase(), Phase::Ready);
}

#[test]
fn existing_store_only_opens_the_pool() {
    let (mut b, first) = Bootstrap::start("./data/catalog.db");
    assert!(matches!(first, Action::ProbeStore));
    let s = b.step(Event::Probed { exists: true });
    assert_eq!(expect_open_pool(&s.action), store_settings());
    assert_eq!(s.warning, None);
    assert_eq!(b.phase(), Phase::OpeningPool { fresh: false });
    let s = b.step(Event::PoolOpened);
    assert!(matches!(s.action, Action::ReturnPool));
    assert_eq!(b.phase(), Phase::Ready);
}

#[test]
fn second_bootstrap_does_not_create_tables_again() {
    let location = "./data/catalog.db";
    let (mut first, _) = Bootstrap::start(location);
    let mut schema_runs = 0;
    for e in [
        Event::Probed { exists: false },
        Event::DirectoryCreated,
        Event::StoreCreated,
        Event::PoolOpened,
        Event::SchemaCreated,
    ] {
        if matches!(first.step(e).action, Action::ExecuteSchema { .. }) {
            schema_runs += 1;
        }
    }
    assert_eq!(schema_runs, 1);

    let (mut second, _) = Bootstrap::start(location);
    for e in [Event::Probed { exists: true }, Event::PoolOpened] {
        let a = second.step(e).action;
        assert!(!matches!(
            a,
            Action::ExecuteSchema { .. } | Action::CreateStore | Action::CreateDirectory { .. }
        ));
    }
    assert_eq!(second.phase(), Phase::Ready);
}

#[test]
fn both_branches_open_pools_with_identical_settings() {
    let (mut fresh, _) = Bootstrap::start("store.db");
    fresh.step(Event::Probed { exists: false });
    let a = fresh.step(Event::StoreCreated).action;
    let (mut existing, _) = Bootstrap::start("store.db");
    let b = existing.step(Event::Probed { exists: true }).action;
    assert_eq!(expect_open_pool(&a), expect_open_pool(&b));
}

#[test]
fn pool_allows_a_single_connection() {
    let s = store_settings();
    assert_eq!(s.max_connections, 1);
    assert_eq!(s.max_lifetime_secs, None);
    assert_eq!(s.journal_mode, catalog_store::settings::JournalMode::Wal);
    assert_eq!(s.locking_mode, catalog_store::settings::LockingMode::Exclusive);
    assert_eq!(s.synchronous, catalog_store::settings::Synchronous::Normal);
    assert_eq!(s.slow_statement_level, catalog_store::settings::LogLevel::Warn);
    assert_eq!(s.slow_statement_secs, 5);
}

#[test]
fn directory_failure_still_attempts_store_creation() {
    let (mut b, _) = Bootstrap::start("sqlite://remote.example/a/b/c/catalog.db");
    let s = b.step(Event::Probed { exists: false });
    assert!(matches!(s.action, Action::CreateDirectory { .. }));
    let s = b.step(Event::DirectoryFailed);
    assert!(matches!(s.action, Action::CreateStore));
    assert_eq!(s.warning, Some(Warning::DirectoryNotCreated));
    assert_eq!(b.phase(), Phase::CreatingStore);
    let s = b.step(Event::StoreFailed);
    assert!(matches!(s.action, Action::ReturnError { stage: Stage::CreateStore }));
    assert_eq!(b.phase(), Phase::Failed { stage: Stage::CreateStore });
}

#[test]
fn schema_failure_is_reported_apart_from_pool_failure() {
    let (mut b, _) = Bootstrap::start("./data/catalog.db");
    b.step(Event::Probed { exists: false });
    b.step(Event::DirectoryCreated);
    b.step(Event::StoreCreated);
    let s = b.step(Event::PoolOpened);
    assert!(matches!(s.action, Action::ExecuteSchema { .. }));
    let s = b.step(Event::SchemaFailed);
    assert!(matches!(s.action, Action::ReturnError { stage: Stage::CreateSchema }));
    assert_eq!(b.phase(), Phase::Failed { stage: Stage::CreateSchema });

    let (mut c, _) = Bootstrap::start("./data/catalog.db");
    c.step(Event::Probed { exists: true });
    let s = c.step(Event::PoolFailed);
    assert!(matches!(s.action, Action::ReturnError { stage: Stage::OpenPool }));
}

#[test]
fn probe_failure_is_fatal() {
    let (mut b, _) = Bootstrap::start("./data/catalog.db");
    let s = b.step(Event::ProbeFailed);
    assert!(matches!(s.action, Action::ReturnError { stage: Stage::Probe }));
    assert_eq!(b.phase(), Phase::Failed { stage: Stage::Probe });
}

#[test]
fn bare_name_has_no_directory_and_warns() {
    let (mut b, _) = Bootstrap::start("catalog.db");
    let s = b.step(Event::Probed { exists: false });
    assert!(matches!(s.action, Action::CreateStore));
    assert_eq!(s.warning, Some(Warning::NoParentDirectory));
    assert_eq!(b.phase(), Phase::CreatingStore);
}

#[test]
fn stray_events_change_nothing() {
    let (mut b, _) = Bootstrap::start("./data/catalog.db");
    let s = b.step(Event::PoolOpened);
    assert!(matches!(s.action, Action::Wait));
    assert_eq!(b.phase(), Phase::Probing);
    b.step(Event::Probed { exists: true });
    b.step(Event::PoolOpened);
    let s = b.step(Event::SchemaFailed);
    assert!(matches!(s.action, Action::Wait));
    assert_eq!(b.phase(), Phase::Ready);
}

#[test]
fn directory_of_locations() {
    assert_eq!(directory_to_create("./data/catalog.db"), Some(String::from("./data")));
    assert_eq!(directory_to_create("a/b/c.db"), Some(String::from("a/b")));
    assert_eq!(directory_to_create("/var/lib/catalog.db"), Some(String::from("/var/lib")));
    assert_eq!(directory_to_create("catalog.db"), None);
    assert_eq!(directory_to_create("/"), None);
    assert_eq!(directory_to_create(""), None);
    assert_eq!(DIRECTORY_MODE, 0o777);
}

use accounts_db::initializer::{is_conflict_message, InitAction, InitEvent, InitPhase, Initializer};
use accounts_db::layout::{DbFiles, FileOp};
use accounts_db::schema::{schema_steps, seed_steps, SchemaStep, Table};
use accounts_db::state::DbState;
use accounts_db::sync_config::{configure_sync, get_sync_config, SyncConfig};
use accounts_db::validator::ProbeOutcome;

fn accounts() -> DbFiles {
    DbFiles { file_name: "accounts.db".to_string() }
}

fn cloud_config() -> Option<SyncConfig> {
    Some(SyncConfig { url: "libsql://example.com".to_string(), token: "validtoken".to_string() })
}

fn connected_to_cloud() -> Initializer {
    let mut init = Initializer::new(accounts(), cloud_config());
    assert!(matches!(init.on_event(InitEvent::Begin), InitAction::Probe(_)));
    let next = init.on_event(InitEvent::ProbeAnswered(ProbeOutcome::Responded { status: 200, text: "200 OK".to_string() }));
    assert!(matches!(next, InitAction::ConnectSynced { ref url, ref token } if url == "libsql://example.com" && token == "validtoken"));
    init
}

#[test]
fn no_config_goes_local_and_reports_sync_off() {
    let mut init = Initializer::new(accounts(), None);
    assert!(matches!(init.on_event(InitEvent::Begin), InitAction::OpenLocal));
    assert!(matches!(init.on_event(InitEvent::LocalReady), InitAction::Migrate));
    let publish = init.on_event(InitEvent::MigrationDone);
    assert!(matches!(publish, InitAction::Publish { sync_enabled: false, ref sync_url } if sync_url.is_empty()));
    assert!(init.phase() == InitPhase::Ready);
}

#[test]
fn empty_token_goes_local_without_probe() {
    let cfg = Some(SyncConfig { url: "libsql://example.com".to_string(), token: String::new() });
    let mut init = Initializer::new(accounts(), cfg);
    assert!(matches!(init.on_event(InitEvent::Begin), InitAction::OpenLocal));
}

#[test]
fn bad_scheme_goes_local_without_probe() {
    let cfg = Some(SyncConfig { url: "ftp://x".to_string(), token: "tok".to_string() });
    let mut init = Initializer::new(accounts(), cfg);
    assert!(matches!(init.on_event(InitEvent::Begin), InitAction::OpenLocal));
}

#[test]
fn failed_probe_goes_local() {
    let mut init = Initializer::new(accounts(), cloud_config());
    init.on_event(InitEvent::Begin);
    let next = init.on_event(InitEvent::ProbeAnswered(ProbeOutcome::Responded { status: 401, text: "401 Unauthorized".to_string() }));
    assert!(matches!(next, InitAction::OpenLocal));
}

#[test]
fn generation_mismatch_quarantines_then_retries_once() {
    let mut init = connected_to_cloud();
    let q = init.on_event(InitEvent::SyncedFailed("sync error: Generation ID mismatch".to_string()));
    match q {
        InitAction::Quarantine(ops) => {
            assert_eq!(ops.len(), 5);
            assert!(matches!(&ops[1], FileOp::RenameOrRemove { to, .. } if to == "accounts.db.legacy"));
        }
        _ => panic!("expected a quarantine"),
    }
    assert!(matches!(init.on_event(InitEvent::QuarantineDone), InitAction::ConnectSynced { .. }));
    assert!(matches!(init.on_event(InitEvent::SyncedFailed("Generation ID mismatch".to_string())), InitAction::OpenLocal));
    assert!(matches!(init.on_event(InitEvent::LocalReady), InitAction::Migrate));
    let publish = init.on_event(InitEvent::MigrationDone);
    assert!(matches!(publish, InitAction::Publish { sync_enabled: false, .. }));
}

#[test]
fn successful_retry_reports_sync_on() {
    let mut init = connected_to_cloud();
    init.on_event(InitEvent::SyncedFailed("invalid local state: missing".to_string()));
    init.on_event(InitEvent::QuarantineDone);
    assert!(matches!(init.on_event(InitEvent::SyncedReady), InitAction::Migrate));
    let publish = init.on_event(InitEvent::MigrationDone);
    assert!(matches!(publish, InitAction::Publish { sync_enabled: true, ref sync_url } if sync_url == "libsql://example.com"));
}

#[test]
fn plain_failure_goes_local_without_quarantine() {
    let mut init = connected_to_cloud();
    let next = init.on_event(InitEvent::SyncedFailed("dns error: no such host".to_string()));
    assert!(matches!(next, InitAction::OpenLocal));
}

#[test]
fn local_failure_is_fatal() {
    let mut init = Initializer::new(accounts(), None);
    init.on_event(InitEvent::Begin);
    let f = init.on_event(InitEvent::LocalBuildFailed("disk full".to_string()));
    assert!(matches!(f, InitAction::Fail(ref m) if m == "Failed to build local db: disk full"));
    assert!(init.phase() == InitPhase::Failed);
}

#[test]
fn local_connect_failure_is_fatal() {
    let mut init = Initializer::new(accounts(), None);
    init.on_event(InitEvent::Begin);
    let f = init.on_event(InitEvent::LocalConnectFailed("locked".to_string()));
    assert!(matches!(f, InitAction::Fail(ref m) if m == "Failed to connect: locked"));
}

#[test]
fn migration_failure_is_fatal() {
    let mut init = Initializer::new(accounts(), None);
    init.on_event(InitEvent::Begin);
    init.on_event(InitEvent::LocalReady);
    let f = init.on_event(InitEvent::MigrationFailed("no such table".to_string()));
    assert!(matches!(f, InitAction::Fail(ref m) if m == "no such table"));
}

#[test]
fn out_of_order_event_is_ignored() {
    let mut init = Initializer::new(accounts(), None);
    assert!(matches!(init.on_event(InitEvent::MigrationDone), InitAction::Idle));
    assert!(init.phase() == InitPhase::Start);
}

#[test]
fn conflict_messages() {
    assert!(is_conflict_message("local state is incorrect, db file exists but metadata file does not"));
    assert!(is_conflict_message("server returned a conflict: sent=1, got=2"));
    assert!(is_conflict_message("checksum mismatch"));
    assert!(!is_conflict_message("connection refused"));
    assert!(!is_conflict_message(""));
}

#[test]
fn schema_runs_foreign_keys_first() {
    let steps = schema_steps();
    assert_eq!(steps.len(), 8);
    assert_eq!(steps[0].sql(), "PRAGMA foreign_keys = ON");
    assert!(matches!(steps[1], SchemaStep::CreateTable(Table::Categories)));
    assert!(steps[1].sql().starts_with("CREATE TABLE IF NOT EXISTS categories"));
    assert!(steps[7].sql().starts_with("CREATE INDEX IF NOT EXISTS idx_installment_details_due_date"));
    assert_eq!(steps[0].failure_message("boom"), "Failed to enable foreign keys: boom");
}

#[test]
fn seeding_only_when_empty() {
    let seeds = seed_steps(Some(0));
    assert_eq!(seeds.len(), 6);
    assert_eq!(seeds[0].sql(), "INSERT INTO categories (name, icon) VALUES (?, ?)");
    assert_eq!(seeds[0].params(), vec!["食物".to_string(), "🍔".to_string()]);
    assert_eq!(seed_steps(None).len(), 6);
    assert!(seed_steps(Some(6)).is_empty());
    assert!(seed_steps(Some(1)).is_empty());
}

#[test]
fn configured_sync_is_live_after_restart() {
    let text = configure_sync("libsql://example.com".to_string(), "validtoken".to_string(), Ok(())).ok().unwrap();
    let config = get_sync_config(Some(&text));
    let mut init = Initializer::new(accounts(), config);
    assert!(matches!(init.on_event(InitEvent::Begin), InitAction::Probe(_)));
    init.on_event(InitEvent::ProbeAnswered(ProbeOutcome::Responded { status: 200, text: "200 OK".to_string() }));
    assert!(matches!(init.on_event(InitEvent::SyncedReady), InitAction::Migrate));
    let mut state: DbState<u8, u16> = DbState::new();
    let mut categories = 0usize;
    for _ in schema_steps() {}
    categories += seed_steps(Some(categories as i64)).len();
    match init.on_event(InitEvent::MigrationDone) {
        InitAction::Publish { sync_enabled, sync_url } => {
            state.install(1, 2);
            state.set_sync_config(sync_enabled, sync_url);
        }
        _ => panic!("expected publish"),
    }
    assert!(state.is_cloud_sync_enabled());
    assert_eq!(state.get_sync_url(), "libsql://example.com");
    assert_eq!(categories, 6);
    categories += seed_steps(Some(categories as i64)).len();
    assert_eq!(categories, 6);
}

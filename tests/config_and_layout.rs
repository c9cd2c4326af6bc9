use accounts_db::layout::{get_config_path, has_legacy_db, DbFiles, FileOp};
use accounts_db::sync_config::{configure_sync, get_sync_config, parse_sync_config, SyncConfig};
use accounts_db::validator::ValidationError;

fn accounts() -> DbFiles {
    DbFiles { file_name: "accounts.db".to_string() }
}

#[test]
fn config_renders_as_json_object() {
    let c = SyncConfig { url: "libsql://example.com".to_string(), token: "validtoken".to_string() };
    assert_eq!(c.to_json(), "{\"url\":\"libsql://example.com\",\"token\":\"validtoken\"}");
}

#[test]
fn config_escapes_quotes() {
    let c = SyncConfig { url: "a\"b".to_string(), token: "t\\".to_string() };
    assert_eq!(c.to_json(), "{\"url\":\"a\\\"b\",\"token\":\"t\\\\\"}");
}

#[test]
fn config_round_trips() {
    let c = SyncConfig { url: "https://db.example.org".to_string(), token: "tok\"en".to_string() };
    let back = parse_sync_config(&c.to_json()).expect("decodes");
    assert_eq!(back.url, c.url);
    assert_eq!(back.token, c.token);
}

#[test]
fn config_escapes_control_characters() {
    let c = SyncConfig { url: "a\tb\u{1}".to_string(), token: "\u{e9}".to_string() };
    assert_eq!(c.to_json(), "{\"url\":\"a\\tb\\u0001\",\"token\":\"\u{e9}\"}");
    let back = parse_sync_config(&c.to_json()).expect("decodes");
    assert_eq!(back.url, c.url);
    assert_eq!(back.token, c.token);
}

#[test]
fn config_with_spaces_and_extra_members_decodes() {
    let back = parse_sync_config("{ \"token\" : \"x\", \"url\": \"y\", \"other\": 1 }").expect("decodes");
    assert_eq!(back.url, "y");
    assert_eq!(back.token, "x");
}

#[test]
fn malformed_config_is_no_config() {
    assert!(parse_sync_config("not json").is_none());
    assert!(parse_sync_config("{\"url\":\"x\"}").is_none());
    assert!(parse_sync_config("{\"url\":1,\"token\":\"t\"}").is_none());
    assert!(get_sync_config(Some("{")).is_none());
}

#[test]
fn missing_config_file_is_no_config() {
    assert!(get_sync_config(None).is_none());
}

#[test]
fn present_config_file_is_read() {
    let c = get_sync_config(Some("{\"url\":\"u\",\"token\":\"t\"}")).expect("decodes");
    assert_eq!(c.url, "u");
    assert_eq!(c.token, "t");
}

#[test]
fn completeness_needs_both_fields() {
    let full = SyncConfig { url: "u".to_string(), token: "t".to_string() };
    let no_token = SyncConfig { url: "u".to_string(), token: String::new() };
    let no_url = SyncConfig { url: String::new(), token: "t".to_string() };
    assert!(full.is_complete());
    assert!(!no_token.is_complete());
    assert!(!no_url.is_complete());
}

#[test]
fn configure_refuses_failed_probe() {
    let r = configure_sync("https://x".to_string(), "t".to_string(), Err(ValidationError::Authentication));
    assert!(matches!(r, Err(ValidationError::Authentication)));
}

#[test]
fn configure_stores_passed_probe() {
    let r = configure_sync("https://x".to_string(), "t".to_string(), Ok(()));
    assert_eq!(r.ok().unwrap(), "{\"url\":\"https://x\",\"token\":\"t\"}");
}

#[test]
fn configure_stores_incomplete_without_probe() {
    let r = configure_sync("https://x".to_string(), String::new(), Err(ValidationError::Format));
    assert_eq!(r.ok().unwrap(), "{\"url\":\"https://x\",\"token\":\"\"}");
}

#[test]
fn sidecar_names() {
    let db = accounts();
    assert_eq!(get_config_path(&db), "sync_config.json");
    assert_eq!(db.legacy_name(), "accounts.db.legacy");
    assert_eq!(db.wal_name(), "accounts.db-wal");
    assert_eq!(db.shm_name(), "accounts.db-shm");
    assert_eq!(db.sync_dir_name(), "accounts.db-sync");
}

#[test]
fn sidecar_names_of_unusual_files() {
    let plain = DbFiles { file_name: "ledger".to_string() };
    assert_eq!(plain.legacy_name(), "ledger.db.legacy");
    let hidden = DbFiles { file_name: ".hidden".to_string() };
    assert_eq!(hidden.legacy_name(), ".hidden.db.legacy");
    let two = DbFiles { file_name: "a.b.sqlite".to_string() };
    assert_eq!(two.legacy_name(), "a.b.db.legacy");
}

#[test]
fn quarantine_plan_order() {
    let plan = accounts().quarantine_plan();
    assert_eq!(plan.len(), 5);
    assert!(matches!(&plan[0], FileOp::Remove(n) if n == "accounts.db.legacy"));
    assert!(matches!(&plan[1], FileOp::RenameOrRemove { from, to } if from == "accounts.db" && to == "accounts.db.legacy"));
    assert!(matches!(&plan[2], FileOp::Remove(n) if n == "accounts.db-wal"));
    assert!(matches!(&plan[3], FileOp::Remove(n) if n == "accounts.db-shm"));
    assert!(matches!(&plan[4], FileOp::RemoveTree(n) if n == "accounts.db-sync"));
}

#[test]
fn legacy_presence() {
    let db = accounts();
    let with = vec!["accounts.db".to_string(), "accounts.db.legacy".to_string()];
    let without = vec!["accounts.db".to_string(), "sync_config.json".to_string()];
    assert!(has_legacy_db(&db, &with));
    assert!(!has_legacy_db(&db, &without));
    assert!(!has_legacy_db(&db, &Vec::new()));
}

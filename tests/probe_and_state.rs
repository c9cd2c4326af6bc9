use accounts_db::state::{DbError, DbState};
use accounts_db::validator::{classify_probe, validation_request, ProbeOutcome, ValidationError, PROBE_TIMEOUT_SECS};

#[test]
fn bad_scheme_is_format_error() {
    assert!(matches!(validation_request("ftp://x", "tok"), Err(ValidationError::Format)));
    assert!(matches!(validation_request("", "tok"), Err(ValidationError::Format)));
    assert!(matches!(validation_request("http://x", "tok"), Err(ValidationError::Format)));
}

#[test]
fn sync_scheme_probes_over_https() {
    let req = validation_request("libsql://example.com", "validtoken").ok().unwrap();
    assert_eq!(req.url, "https://example.com");
    assert_eq!(req.authorization, "Bearer validtoken");
    assert_eq!(req.content_type, "application/json");
    assert_eq!(req.body, "{\"statements\":[\"SELECT 1\"]}");
    assert_eq!(req.timeout_secs, 30);
    assert_eq!(PROBE_TIMEOUT_SECS, 30);
}

#[test]
fn https_scheme_is_kept() {
    let req = validation_request("https://db.example.org/x", "t").ok().unwrap();
    assert_eq!(req.url, "https://db.example.org/x");
}

#[test]
fn unauthorized_is_authentication_error() {
    assert!(matches!(classify_probe(ProbeOutcome::Responded { status: 401, text: "401 Unauthorized".to_string() }), Err(ValidationError::Authentication)));
    assert!(matches!(classify_probe(ProbeOutcome::Responded { status: 403, text: "403 Forbidden".to_string() }), Err(ValidationError::Authentication)));
}

#[test]
fn server_error_is_distinct() {
    let r = classify_probe(ProbeOutcome::Responded { status: 500, text: "500 Internal Server Error".to_string() });
    assert!(matches!(r, Err(ValidationError::Server(ref t)) if t == "500 Internal Server Error"));
    assert_eq!(r.err().unwrap().message(), "Server returned error: 500 Internal Server Error");
    let r = classify_probe(ProbeOutcome::Responded { status: 302, text: "302 Found".to_string() });
    assert!(matches!(r, Err(ValidationError::Server(ref t)) if t == "302 Found"));
}

#[test]
fn refused_connection_is_network_error() {
    let r = classify_probe(ProbeOutcome::TransportFailed("connection refused".to_string()));
    assert!(matches!(r, Err(ValidationError::Network(ref m)) if m == "connection refused"));
}

#[test]
fn success_status_passes() {
    assert!(classify_probe(ProbeOutcome::Responded { status: 200, text: "200 OK".to_string() }).is_ok());
    assert!(classify_probe(ProbeOutcome::Responded { status: 204, text: "204 No Content".to_string() }).is_ok());
}

#[test]
fn validation_messages() {
    assert_eq!(ValidationError::Authentication.message(), "Authentication failed (Invalid Token)");
    assert_eq!(ValidationError::Server("503 Service Unavailable".to_string()).message(), "Server returned error: 503 Service Unavailable");
    assert_eq!(ValidationError::Network("x".to_string()).message(), "Connection failed: x");
    assert_eq!(ValidationError::Format.message(), "URL must start with libsql:// or https://");
}

#[test]
fn empty_state_is_not_initialized() {
    let s: DbState<u8, u16> = DbState::new();
    assert!(matches!(s.get_connection(), Err(DbError::NotInitialized)));
    assert!(!s.is_cloud_sync_enabled());
    assert_eq!(s.get_sync_url(), "");
    let synced = s.sync(Ok(()));
    assert!(matches!(synced, Err(DbError::SyncNotInitialized)));
    assert_eq!(synced.err().unwrap().message(), "数据库未初始化");
    assert_eq!(s.get_connection().err().unwrap().message(), "Database not initialized");
}

#[test]
fn installed_state_serves_connection() {
    let mut s: DbState<u8, u16> = DbState::new();
    s.install(1, 2);
    s.set_sync_config(true, "libsql://example.com".to_string());
    assert_eq!(*s.get_connection().ok().unwrap(), 2);
    assert_eq!(*s.database().unwrap(), 1);
    assert!(s.is_cloud_sync_enabled());
    assert_eq!(s.get_sync_url(), "libsql://example.com");
}

#[test]
fn close_is_idempotent() {
    let mut s: DbState<u8, u16> = DbState::new();
    s.install(1, 2);
    s.close();
    assert!(matches!(s.get_connection(), Err(DbError::NotInitialized)));
    s.close();
    assert!(s.database().is_none());
    assert!(matches!(s.sync(Ok(())), Err(DbError::SyncNotInitialized)));
}

#[test]
fn sync_errors_are_classified() {
    let mut s: DbState<u8, u16> = DbState::new();
    s.install(1, 2);
    assert!(s.sync(Ok(())).is_ok());
    let local = s.sync(Err("Sync is not supported in databases opened in File mode.".to_string()));
    assert!(matches!(local, Err(DbError::SyncNotConfigured)));
    assert_eq!(local.err().unwrap().message(), "云同步未启用。请先配置云同步并重启应用。");
    let other = s.sync(Err("timeout".to_string()));
    assert!(matches!(other, Err(DbError::SyncFailed(ref m)) if m == "timeout"));
    assert_eq!(DbError::SyncFailed("timeout".to_string()).message(), "同步失败: timeout");
}

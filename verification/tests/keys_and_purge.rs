use config_cache_proxy::keys::cache_key_for;
use config_cache_proxy::keys::is_namespace_key;
use config_cache_proxy::keys::scan_pattern;
use config_cache_proxy::purge::clear_all_begin;
use config_cache_proxy::purge::clear_cache_response;
use config_cache_proxy::purge::record_scan_batch;

#[test]
fn cache_key_is_namespaced_and_percent_encoded() {
    let key = cache_key_for("http://cfgserver/app/service-a.yml");
    assert_eq!(key, "config_cache:http%3A%2F%2Fcfgserver%2Fapp%2Fservice-a.yml");
}

#[test]
fn cache_key_escapes_every_reserved_byte() {
    assert_eq!(cache_key_for("a b&c=d"), "config_cache:a%20b%26c%3Dd");
    assert_eq!(cache_key_for(""), "config_cache:");
    assert_eq!(cache_key_for("A-z_0.9~"), "config_cache:A-z_0.9~");
}

#[test]
fn cache_key_derivation_is_deterministic_and_distinct() {
    let a = cache_key_for("http://cfgserver/a.yml");
    let b = cache_key_for("http://cfgserver/a.yml");
    let c = cache_key_for("http://cfgserver/b.yml");
    assert_eq!(a, b);
    assert_ne!(a, c);
}

#[test]
fn scan_pattern_selects_exactly_the_namespace() {
    assert_eq!(scan_pattern(), "config_cache:*");
    assert!(is_namespace_key("config_cache:http%3A%2F%2Fx"));
    assert!(is_namespace_key("config_cache:"));
    assert!(!is_namespace_key("config_cache"));
    assert!(!is_namespace_key("session:42"));
    assert!(!is_namespace_key(""));
}

#[test]
fn purge_of_empty_namespace_reports_zero_and_succeeds() {
    let p = clear_all_begin();
    assert_eq!(p.cursor, 0);
    // The one scan over an empty namespace: cursor back at zero, no keys.
    let (p, done) = record_scan_batch(p, 0, 0);
    assert!(done);
    assert_eq!(p.total_deleted, 0);
    let response = clear_cache_response(p.total_deleted);
    assert!(response.success);
    assert_eq!(response.deleted_count, 0);
    assert_eq!(response.message, "Cleared 0 cache entries");
}

#[test]
fn purge_accumulates_batches_until_cursor_returns_to_zero() {
    let p = clear_all_begin();
    let (p, done) = record_scan_batch(p, 17, 100);
    assert!(!done);
    let (p, done) = record_scan_batch(p, 42, 0);
    assert!(!done);
    assert_eq!(p.cursor, 42);
    let (p, done) = record_scan_batch(p, 0, 3);
    assert!(done);
    assert_eq!(p.total_deleted, 103);
    let response = clear_cache_response(p.total_deleted);
    assert!(response.success);
    assert_eq!(response.deleted_count, 103);
    assert_eq!(response.message, "Cleared 103 cache entries");
}

// A purge simulated over a pre-seeded store: only keys under this
// service's namespace are selected for deletion; unrelated keys in the
// same store survive.
#[test]
fn purge_spares_unrelated_keys() {
    let mut store = vec![
        ("config_cache:http%3A%2F%2Fcfgserver%2Fa.yml".to_string(), "a: 1".to_string()),
        ("session:alice".to_string(), "token".to_string()),
        ("config_cache:http%3A%2F%2Fcfgserver%2Fb.yml".to_string(), "b: 2".to_string()),
        ("other:counter".to_string(), "7".to_string()),
    ];
    let before = store.len();
    store.retain(|(key, _)| !is_namespace_key(key));
    let deleted = (before - store.len()) as u64;
    assert_eq!(deleted, 2);
    assert_eq!(store.len(), 2);
    assert!(store.iter().any(|(k, v)| k == "session:alice" && v == "token"));
    assert!(store.iter().any(|(k, v)| k == "other:counter" && v == "7"));
}

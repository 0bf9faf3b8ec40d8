//! Tests of the once-only connection slot and configuration resolution.

use fp_extension::config::resolve_config;
use fp_extension::conn::ConnManager;

#[test]
fn first_install_wins() {
    let mut mgr: ConnManager<u32> = ConnManager::new();
    assert!(!mgr.is_connected());
    assert!(mgr.handle().is_none());

    assert!(mgr.install(7));
    assert!(mgr.is_connected());
    assert_eq!(mgr.handle(), Some(&7));

    // a racing second attempt must observe the first handle, not replace it
    assert!(!mgr.install(9));
    assert_eq!(mgr.handle(), Some(&7));

    assert!(!mgr.install(7));
    assert_eq!(mgr.handle(), Some(&7));
}

#[test]
fn override_beats_default() {
    let r = resolve_config(Some("mongodb://db.example:27017".to_string()), "mongodb://localhost:27017".to_string());
    assert_eq!(r, "mongodb://db.example:27017");
}

#[test]
fn default_fills_in() {
    let r = resolve_config(None, "mongodb://localhost:27017".to_string());
    assert_eq!(r, "mongodb://localhost:27017");
}

#[test]
fn empty_override_still_wins() {
    // resolution is presence-based, not content-based
    let r = resolve_config(Some(String::new()), "fallback".to_string());
    assert_eq!(r, "");
}

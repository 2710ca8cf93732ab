use service_lifecycle::backend::{backend_url, BackendInfo};
use service_lifecycle::text::{str_contains, u64_string};

#[test]
fn contains_finds_pattern_in_middle() {
    assert!(str_contains("Service stopped cleanly", "stopped"));
}

#[test]
fn contains_finds_pattern_at_start_and_end() {
    assert!(str_contains("RUNNING", "RUNNING"));
    assert!(str_contains("STATE: RUNNING", "RUNNING"));
    assert!(str_contains("RUNNING now", "RUNNING"));
}

#[test]
fn contains_rejects_absent_pattern() {
    assert!(!str_contains("STATE: STOPPED", "RUNNING"));
    assert!(!str_contains("", "RUNNING"));
    assert!(!str_contains("RUN", "RUNNING"));
}

#[test]
fn contains_accepts_empty_pattern() {
    assert!(str_contains("anything", ""));
    assert!(str_contains("", ""));
}

#[test]
fn contains_is_not_fooled_by_partial_repeats() {
    assert!(str_contains("ERRERROR: x", "ERROR:"));
    assert!(!str_contains("ERRO ERRO ERRO", "ERROR:"));
}

#[test]
fn decimal_rendering_exact_values() {
    assert_eq!(u64_string(0), "0");
    assert_eq!(u64_string(7), "7");
    assert_eq!(u64_string(10), "10");
    assert_eq!(u64_string(1060), "1060");
    assert_eq!(u64_string(65535), "65535");
    assert_eq!(u64_string(18446744073709551615), "18446744073709551615");
}

#[test]
fn backend_url_exact() {
    assert_eq!(backend_url(8080), "http://localhost:8080");
    assert_eq!(backend_url(1), "http://localhost:1");
}

#[test]
fn backend_info_url_agrees_with_port() {
    let info = BackendInfo::new(3000, true);
    assert_eq!(info.url, "http://localhost:3000");
    assert_eq!(info.port, 3000);
    assert!(info.using_service);
    let info = BackendInfo::new(65535, false);
    assert_eq!(info.url, "http://localhost:65535");
    assert!(!info.using_service);
}

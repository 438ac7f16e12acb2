use lim_backend::middleware::{cors, is_preflight, is_profiled, ping, RequestCounter};

#[test]
fn counter_counts_each_request_once() {
    let mut counter = RequestCounter::new();
    assert_eq!(counter.value(), 0);
    assert_eq!(counter.count(), 0);
    assert_eq!(counter.count(), 1);
    assert_eq!(counter.count(), 2);
    assert_eq!(counter.value(), 3);
    assert_eq!(RequestCounter::default().value(), 0);
}

#[test]
fn every_request_but_the_health_check_is_profiled() {
    assert!(!is_profiled("/ping"));
    assert!(is_profiled("/ping/"));
    assert!(is_profiled("/"));
    assert!(is_profiled("/jobs"));
    assert!(is_profiled(""));
    assert_eq!(ping(), "pong");
}

#[test]
fn preflight_requests_are_recognised() {
    assert!(is_preflight("OPTIONS"));
    assert!(!is_preflight("options"));
    assert!(!is_preflight("GET"));
    assert!(!is_preflight("POST"));
    assert!(!is_preflight(""));
}

#[test]
fn cross_origin_headers_allow_everything() {
    let headers: Vec<(String, String)> =
        cors().into_iter().map(|header| (header.name, header.value)).collect();
    assert_eq!(
        headers,
        vec![
            ("Access-Control-Allow-Origin".to_string(), "*".to_string()),
            ("Access-Control-Allow-Headers".to_string(), "*".to_string()),
            ("Access-Control-Allow-Credentials".to_string(), "true".to_string()),
        ]
    );
}

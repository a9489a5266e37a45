use mongonaut::history::ConnectionHistory;

fn uris(h: &ConnectionHistory) -> Vec<&str> {
    h.uris.iter().map(|s| s.as_str()).collect()
}

#[test]
fn new_history_is_empty() {
    let h = ConnectionHistory::new();
    assert!(h.uris.is_empty());
    assert!(h.is_valid());
}

#[test]
fn add_uri_puts_newest_first() {
    let mut h = ConnectionHistory::new();
    h.add_uri("mongodb://a".to_string());
    h.add_uri("mongodb://b".to_string());
    assert_eq!(uris(&h), vec!["mongodb://b", "mongodb://a"]);
}

#[test]
fn add_uri_twice_keeps_one_copy_in_front() {
    let mut h = ConnectionHistory::new();
    h.add_uri("mongodb://a".to_string());
    h.add_uri("mongodb://b".to_string());
    h.add_uri("mongodb://x".to_string());
    h.add_uri("mongodb://x".to_string());
    assert_eq!(uris(&h), vec!["mongodb://x", "mongodb://b", "mongodb://a"]);
}

#[test]
fn add_uri_moves_existing_entry_to_front() {
    let mut h = ConnectionHistory::new();
    for u in ["a", "b", "c"] {
        h.add_uri(u.to_string());
    }
    h.add_uri("a".to_string());
    assert_eq!(uris(&h), vec!["a", "c", "b"]);
}

#[test]
fn history_never_exceeds_ten_entries() {
    let mut h = ConnectionHistory::new();
    for i in 0..12 {
        h.add_uri(format!("mongodb://host{}", i));
        assert!(h.uris.len() <= 10);
    }
    assert_eq!(h.uris.len(), 10);
    assert_eq!(h.uris[0], "mongodb://host11");
    assert_eq!(h.uris[9], "mongodb://host2");
    assert!(h.is_valid());
}

#[test]
fn add_uri_trims_an_overlong_history() {
    let mut h = ConnectionHistory {
        uris: (0..12).map(|i| format!("u{}", i)).collect(),
    };
    assert!(!h.is_valid());
    h.add_uri("u3".to_string());
    assert_eq!(h.uris.len(), 10);
    assert_eq!(h.uris[0], "u3");
    assert_eq!(h.uris[1], "u0");
}

#[test]
fn is_valid_rejects_duplicates() {
    let h = ConnectionHistory {
        uris: vec!["a".to_string(), "b".to_string(), "a".to_string()],
    };
    assert!(!h.is_valid());
}

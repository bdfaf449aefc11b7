use aish::cache::{read_cache, write_cache, Cache, CacheEntry, CacheError, CacheFile};

fn entry(q: &str, a: &str) -> CacheEntry {
    CacheEntry { query: q.to_string(), answer: a.to_string(), timestamp: "2024-01-01T00:00:00Z".to_string() }
}

fn cache_of(pairs: &[(&str, &str)]) -> Cache {
    Cache { entries: pairs.iter().map(|(q, a)| entry(q, a)).collect() }
}

#[test]
fn lookup_of_never_stored_query_is_none() {
    let c = cache_of(&[("list pods", "kubectl get pods")]);
    assert_eq!(read_cache(CacheFile::Parsed(c), "list nodes").unwrap(), None);
}

#[test]
fn store_then_lookup_round_trip() {
    let c = write_cache(CacheFile::Missing, "list pods", "kubectl get pods").unwrap();
    assert_eq!(c.entries.len(), 1);
    assert_eq!(
        read_cache(CacheFile::Parsed(c), "list pods").unwrap(),
        Some("kubectl get pods".to_string())
    );
}

#[test]
fn overwrite_leaves_one_entry_with_second_answer() {
    let c = write_cache(CacheFile::Missing, "q", "a1").unwrap();
    let c = write_cache(CacheFile::Parsed(c), "q", "a2").unwrap();
    assert_eq!(c.entries.iter().filter(|e| e.query == "q").count(), 1);
    assert_eq!(read_cache(CacheFile::Parsed(c), "q").unwrap(), Some("a2".to_string()));
}

#[test]
fn overwrite_keeps_other_entries_in_order() {
    let c = cache_of(&[("a", "1"), ("q", "old"), ("b", "2")]);
    let c = write_cache(CacheFile::Parsed(c), "q", "new").unwrap();
    let qs: Vec<&str> = c.entries.iter().map(|e| e.query.as_str()).collect();
    assert_eq!(qs, vec!["a", "b", "q"]);
    assert_eq!(c.entries[2].answer, "new");
}

#[test]
fn missing_file_behaves_as_empty_cache() {
    for q in ["", "list pods", "x"] {
        assert_eq!(read_cache(CacheFile::Missing, q).unwrap(), None);
        assert_eq!(read_cache(CacheFile::Parsed(Cache::new()), q).unwrap(), None);
    }
}

#[test]
fn find_returns_first_match() {
    let c = cache_of(&[("q", "first"), ("q", "second")]);
    assert_eq!(c.find("q"), Some("first"));
    assert_eq!(c.find("other"), None);
}

#[test]
fn insert_stamps_second_precision_utc() {
    let mut c = Cache::new();
    c.insert("q".to_string(), "a".to_string());
    let ts = &c.entries[0].timestamp;
    assert_eq!(ts.len(), 20);
    assert!(ts.ends_with('Z'));
    assert_eq!(&ts[4..5], "-");
    assert_eq!(&ts[10..11], "T");
}

#[test]
fn read_errors_are_reported() {
    assert_eq!(read_cache(CacheFile::Unreadable, "q").unwrap_err(), CacheError::Io);
    assert_eq!(read_cache(CacheFile::Malformed, "q").unwrap_err(), CacheError::Parse);
    assert_eq!(read_cache(CacheFile::NoHome, "q").unwrap_err(), CacheError::HomeDirUnresolvable);
}

#[test]
fn write_errors_are_reported() {
    assert_eq!(write_cache(CacheFile::Unreadable, "q", "a").unwrap_err(), CacheError::Io);
    assert_eq!(write_cache(CacheFile::Malformed, "q", "a").unwrap_err(), CacheError::Parse);
    assert_eq!(
        write_cache(CacheFile::NoHome, "q", "a").unwrap_err(),
        CacheError::HomeDirUnresolvable
    );
}

#[test]
fn storing_one_query_leaves_others_absent() {
    let c = write_cache(CacheFile::Missing, "list pods", "kubectl get pods").unwrap();
    let c = write_cache(CacheFile::Parsed(c), "list nodes", "kubectl get nodes").unwrap();
    assert_eq!(c.find("list services"), None);
    assert_eq!(c.find("list pods"), Some("kubectl get pods"));
}

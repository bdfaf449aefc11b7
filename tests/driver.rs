use aish::cache::{read_cache, write_cache, Cache, CacheFile};
use aish::driver::{
    after_lookup, exit_code, finish, first_step, invoking_notice, join_words, Finish, Step,
};

#[test]
fn cached_answer_printed_without_fetch() {
    let c = write_cache(CacheFile::Parsed(Cache::new()), "say hi", "echo hi").unwrap();
    assert_eq!(first_step(false), Step::LookUp);
    let cached = read_cache(CacheFile::Parsed(c), "say hi").unwrap();
    let step = after_lookup(cached);
    assert_eq!(step, Step::Deliver("echo hi".to_string()));
    match step {
        Step::Deliver(a) => assert_eq!(finish(true, a), Finish::Print("echo hi".to_string())),
        _ => panic!("expected a cached answer"),
    }
}

#[test]
fn force_refresh_fetches_and_overwrites() {
    let c = write_cache(CacheFile::Missing, "say hi", "echo hi").unwrap();
    assert_eq!(first_step(true), Step::FetchAndStore);
    let c = write_cache(CacheFile::Parsed(c), "say hi", "echo hello").unwrap();
    assert_eq!(c.entries.len(), 1);
    assert_eq!(
        read_cache(CacheFile::Parsed(c), "say hi").unwrap(),
        Some("echo hello".to_string())
    );
}

#[test]
fn miss_fetches() {
    assert_eq!(after_lookup(None), Step::FetchAndStore);
}

#[test]
fn run_when_not_dry() {
    assert_eq!(finish(false, "ls".to_string()), Finish::Run("ls".to_string()));
    assert_eq!(invoking_notice("ls -l"), "Invoking: ls -l");
}

#[test]
fn exit_codes() {
    assert_eq!(exit_code(true, Some(0)), None);
    assert_eq!(exit_code(false, Some(3)), Some(3));
    assert_eq!(exit_code(false, None), Some(1));
}

#[test]
fn words_joined_by_single_spaces() {
    let w = vec!["pods".to_string(), "in".to_string(), "namespace".to_string(), "foo".to_string()];
    assert_eq!(join_words(&w), "pods in namespace foo");
    assert_eq!(join_words(&vec!["one".to_string()]), "one");
    assert_eq!(join_words(&vec![]), "");
}

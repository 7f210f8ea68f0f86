use alfred_eudic::cache::{
    cache_key, create_table_sql, is_expired, lookup_answer, select_sql, upsert_sql, CacheKind,
    CacheStep, CachedFetch, CACHE_TTL_SECS,
};
use alfred_eudic::sources::{DictEntry, SourceError};

#[test]
fn kinds_are_isolated() {
    let all = CacheKind::all();
    assert_eq!(all.len(), 10);
    for (i, a) in all.iter().enumerate() {
        for b in all.iter().skip(i + 1) {
            assert_ne!(a.table(), b.table());
        }
    }
    assert_eq!(CacheKind::MwThesaurus.table(), "cache_mw_thesaurus");
    assert_eq!(CacheKind::Llm.table(), "cache_llm");
}

#[test]
fn sql_texts() {
    assert_eq!(
        create_table_sql(CacheKind::Urban),
        "CREATE TABLE IF NOT EXISTS cache_urban (key TEXT PRIMARY KEY, value BLOB NOT NULL, fetched_at INTEGER NOT NULL)"
    );
    assert_eq!(select_sql(CacheKind::Wordnik), "SELECT value, fetched_at FROM cache_wordnik WHERE key = ?1");
    assert!(upsert_sql(CacheKind::Llm).starts_with("INSERT INTO cache_llm (key, value, fetched_at) VALUES (?1, ?2, ?3)"));
}

#[test]
fn expired_entry_returns_none() {
    let now = 1_000_000_000i64;
    let old = now - CACHE_TTL_SECS - 1;
    assert!(is_expired(now, old));
    assert!(!is_expired(now, now - CACHE_TTL_SECS));
    assert_eq!(lookup_answer(Some((b"old".to_vec(), old)), now), None);
    assert_eq!(lookup_answer(Some((b"new".to_vec(), now)), now), Some(b"new".to_vec()));
    assert_eq!(lookup_answer(None, now), None);
}

#[test]
fn key_is_trimmed_and_lowercased() {
    assert_eq!(cache_key("  Hello "), "hello");
    assert_eq!(cache_key("Hello"), cache_key("hello"));
}

#[test]
fn cache_hit_skips_fetch() {
    let (f, step) = CachedFetch::start::<Vec<DictEntry>, SourceError>("Hello", false);
    assert_eq!(f.key, "hello");
    assert!(matches!(step, CacheStep::Lookup));
    let cached = vec![DictEntry { headword: "x".into(), definition: "y".into(), extra: None }];
    let step = f.after_lookup::<Vec<DictEntry>, SourceError>(Some(cached));
    assert!(matches!(step, CacheStep::Answer(Ok(v)) if v.len() == 1));
    let step = f.after_lookup::<Vec<DictEntry>, SourceError>(None);
    assert!(matches!(step, CacheStep::Fetch));
}

#[test]
fn bypass_forces_refetch() {
    let (f, step) = CachedFetch::start::<Vec<DictEntry>, SourceError>("hello", true);
    assert!(f.bypass);
    assert!(matches!(step, CacheStep::Fetch));
}

#[test]
fn only_successes_are_stored() {
    let (f, _) = CachedFetch::start::<Vec<DictEntry>, SourceError>("x", false);
    let step = f.after_fetch::<Vec<DictEntry>, SourceError>(Ok(vec![]));
    assert!(matches!(step, CacheStep::StoreAndAnswer(v) if v.is_empty()));
    let step = f.after_fetch::<Vec<DictEntry>, SourceError>(Err(SourceError::Timeout));
    assert!(matches!(step, CacheStep::Answer(Err(SourceError::Timeout))));
}

#[test]
fn miss_returns_none() {
    assert_eq!(lookup_answer(None, 5), None);
}

#[test]
fn put_then_get_roundtrip() {
    let now = 1_700_000_000i64;
    assert_eq!(lookup_answer(Some((b"world".to_vec(), now - 10)), now), Some(b"world".to_vec()));
}

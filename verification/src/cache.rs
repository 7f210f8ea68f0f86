//! The lookup cache: one table per source, a 7-day freshness window, and
//! the decisions of a cache-aware fetch.
use vstd::prelude::*;
use crate::text::{
    ascii_lowercase_spec, is_ascii_spec, lowercase_spec, push_str, to_lowercase, trim, trim_spec,
};

verus! {

/// Entries older than this many seconds are treated as missing.
pub const CACHE_TTL_SECS: i64 = 7 * 24 * 3600;

/// One cache table per data source.
#[derive(Debug, Clone, Copy, PartialEq, Eq, Structural)]
pub enum CacheKind {
    Urban,
    Wordnik,
    Llm,
    Youdao,
    Wikipedia,
    Datamuse,
    Wiktionary,
    FreeDict,
    MwLearners,
    MwThesaurus,
}

/// Table name of each kind.
pub open spec fn table_spec(k: CacheKind) -> Seq<char> {
    match k {
        CacheKind::Urban => "cache_urban"@,
        CacheKind::Wordnik => "cache_wordnik"@,
        CacheKind::Llm => "cache_llm"@,
        CacheKind::Youdao => "cache_youdao"@,
        CacheKind::Wikipedia => "cache_wikipedia"@,
        CacheKind::Datamuse => "cache_datamuse"@,
        CacheKind::Wiktionary => "cache_wiktionary"@,
        CacheKind::FreeDict => "cache_freedict"@,
        CacheKind::MwLearners => "cache_mw_learners"@,
        CacheKind::MwThesaurus => "cache_mw_thesaurus"@,
    }
}

impl CacheKind {
    /// The SQLite table that holds this kind's entries.
    pub fn table(self) -> (r: &'static str)
        ensures
            r@ == table_spec(self),
    {
        match self {
            CacheKind::Urban => "cache_urban",
            CacheKind::Wordnik => "cache_wordnik",
            CacheKind::Llm => "cache_llm",
            CacheKind::Youdao => "cache_youdao",
            CacheKind::Wikipedia => "cache_wikipedia",
            CacheKind::Datamuse => "cache_datamuse",
            CacheKind::Wiktionary => "cache_wiktionary",
            CacheKind::FreeDict => "cache_freedict",
            CacheKind::MwLearners => "cache_mw_learners",
            CacheKind::MwThesaurus => "cache_mw_thesaurus",
        }
    }

    /// All variants, used by cache migration.
    pub fn all() -> (r: [CacheKind; 10])
        ensures
            r@ == seq![
                CacheKind::Urban,
                CacheKind::Wordnik,
                CacheKind::Llm,
                CacheKind::Youdao,
                CacheKind::Wikipedia,
                CacheKind::Datamuse,
                CacheKind::Wiktionary,
                CacheKind::FreeDict,
                CacheKind::MwLearners,
                CacheKind::MwThesaurus,
            ],
    {
        [
            CacheKind::Urban,
            CacheKind::Wordnik,
            CacheKind::Llm,
            CacheKind::Youdao,
            CacheKind::Wikipedia,
            CacheKind::Datamuse,
            CacheKind::Wiktionary,
            CacheKind::FreeDict,
            CacheKind::MwLearners,
            CacheKind::MwThesaurus,
        ]
    }
}

/// Distinct kinds have distinct tables, so entries of one kind never
/// answer a lookup of another.
pub proof fn lemma_tables_distinct(a: CacheKind, b: CacheKind)
    requires
        a != b,
    ensures
        table_spec(a) != table_spec(b),
{
    reveal_strlit("cache_urban");
    reveal_strlit("cache_wordnik");
    reveal_strlit("cache_llm");
    reveal_strlit("cache_youdao");
    reveal_strlit("cache_wikipedia");
    reveal_strlit("cache_datamuse");
    reveal_strlit("cache_wiktionary");
    reveal_strlit("cache_freedict");
    reveal_strlit("cache_mw_learners");
    reveal_strlit("cache_mw_thesaurus");
    let ta = table_spec(a);
    let tb = table_spec(b);
    if ta == tb {
        assert(ta.len() == tb.len());
        assert(ta[6] == tb[6]);
        assert(ta[7] == tb[7]);
        assert(ta[9] == tb[9]);
        assert(ta[10] == tb[10]);
        assert(ta[11] == tb[11]);
    }
}

/// SQL creating the table of `kind`.
pub fn create_table_sql(kind: CacheKind) -> (r: String)
    ensures
        r@ == "CREATE TABLE IF NOT EXISTS "@ + table_spec(kind)
            + " (key TEXT PRIMARY KEY, value BLOB NOT NULL, fetched_at INTEGER NOT NULL)"@,
{
    let mut r = String::new();
    push_str(&mut r, "CREATE TABLE IF NOT EXISTS ");
    push_str(&mut r, kind.table());
    push_str(&mut r, " (key TEXT PRIMARY KEY, value BLOB NOT NULL, fetched_at INTEGER NOT NULL)");
    r
}

/// SQL reading the value and fetch time stored under `?1`.
pub fn select_sql(kind: CacheKind) -> (r: String)
    ensures
        r@ == "SELECT value, fetched_at FROM "@ + table_spec(kind) + " WHERE key = ?1"@,
{
    let mut r = String::new();
    push_str(&mut r, "SELECT value, fetched_at FROM ");
    push_str(&mut r, kind.table());
    push_str(&mut r, " WHERE key = ?1");
    r
}

/// SQL storing `(?1, ?2, ?3)` = (key, value, fetch time), replacing an
/// existing entry for the key.
pub fn upsert_sql(kind: CacheKind) -> (r: String)
    ensures
        r@ == "INSERT INTO "@ + table_spec(kind)
            + " (key, value, fetched_at) VALUES (?1, ?2, ?3) ON CONFLICT(key) DO UPDATE SET value=excluded.value, fetched_at=excluded.fetched_at"@,
{
    let mut r = String::new();
    push_str(&mut r, "INSERT INTO ");
    push_str(&mut r, kind.table());
    push_str(
        &mut r,
        " (key, value, fetched_at) VALUES (?1, ?2, ?3) ON CONFLICT(key) DO UPDATE SET value=excluded.value, fetched_at=excluded.fetched_at",
    );
    r
}

/// An entry fetched at `fetched_at` is stale at time `now`.
pub open spec fn is_expired_spec(now: int, fetched_at: int) -> bool {
    now - fetched_at > CACHE_TTL_SECS
}

/// Whether an entry fetched at `fetched_at` (seconds) is stale at `now`.
pub fn is_expired(now: i64, fetched_at: i64) -> (r: bool)
    requires
        i64::MIN <= now - fetched_at <= i64::MAX,
    ensures
        r == is_expired_spec(now as int, fetched_at as int),
{
    now - fetched_at > CACHE_TTL_SECS
}

/// What a cache lookup answers, given the stored row (value and fetch
/// time) if any: the value while it is fresh, nothing otherwise.
pub fn lookup_answer(row: Option<(Vec<u8>, i64)>, now: i64) -> (r: Option<Vec<u8>>)
    requires
        row matches Some((_, t)) ==> i64::MIN <= now - t <= i64::MAX,
    ensures
        match row {
            Some((v, t)) => if is_expired_spec(now as int, t as int) {
                r is None
            } else {
                r == Some(v)
            },
            None => r is None,
        },
{
    match row {
        Some((v, t)) => {
            if is_expired(now, t) {
                None
            } else {
                Some(v)
            }
        },
        None => None,
    }
}

/// The cache key of a query: the trimmed, lowercased spelling.
pub open spec fn cache_key_spec(spell: Seq<char>) -> Seq<char> {
    lowercase_spec(trim_spec(spell))
}

pub fn cache_key(spell: &str) -> (r: String)
    ensures
        r@ == cache_key_spec(spell@),
{
    let t = trim(spell);
    to_lowercase(t.as_str())
}

/// Queries that differ only in surrounding whitespace share one cache
/// entry.
pub proof fn lemma_key_ignores_padding(a: Seq<char>, b: Seq<char>)
    requires
        trim_spec(a) == trim_spec(b),
    ensures
        cache_key_spec(a) == cache_key_spec(b),
{
}

/// ASCII queries that differ only in letter case (and surrounding
/// whitespace) share one cache entry: `Hello` is found under `hello`.
pub proof fn lemma_key_ignores_ascii_case(a: Seq<char>, b: Seq<char>)
    requires
        is_ascii_spec(trim_spec(a)),
        is_ascii_spec(trim_spec(b)),
        ascii_lowercase_spec(trim_spec(a)) == ascii_lowercase_spec(trim_spec(b)),
    ensures
        cache_key_spec(a) == cache_key_spec(b),
{
}

/// The next step of a cache-aware fetch.
pub enum CacheStep<T, E> {
    /// Read the entry stored under the key; report it decoded, or nothing.
    Lookup,
    /// Ask the source.
    Fetch,
    /// Store the value under the key, then answer it.
    StoreAndAnswer(T),
    /// Answer without touching the cache further.
    Answer(Result<T, E>),
}

/// A cache-aware fetch of one query: reads the cache first unless
/// `bypass` is set, asks the source on a miss, and stores only what the
/// source answered successfully.
pub struct CachedFetch {
    pub key: String,
    pub bypass: bool,
}

impl CachedFetch {
    /// Starts a fetch for `spell`; the key is the normalized spelling.
    pub fn start<T, E>(spell: &str, bypass: bool) -> (r: (CachedFetch, CacheStep<T, E>))
        ensures
            r.0.key@ == cache_key_spec(spell@),
            r.0.bypass == bypass,
            bypass ==> r.1 is Fetch,
            !bypass ==> r.1 is Lookup,
    {
        let key = cache_key(spell);
        if bypass {
            (CachedFetch { key, bypass }, CacheStep::Fetch)
        } else {
            (CachedFetch { key, bypass }, CacheStep::Lookup)
        }
    }

    /// After a lookup: a stored value that decoded is the answer, with no
    /// call to the source; anything else falls through to the source.
    pub fn after_lookup<T, E>(&self, decoded: Option<T>) -> (r: CacheStep<T, E>)
        ensures
            match decoded {
                Some(v) => r == CacheStep::<T, E>::Answer(Ok(v)),
                None => r is Fetch,
            },
    {
        match decoded {
            Some(v) => CacheStep::Answer(Ok(v)),
            None => CacheStep::Fetch,
        }
    }

    /// After the source answered: a success is stored and answered, a
    /// failure is answered and never stored.
    pub fn after_fetch<T, E>(&self, fetched: Result<T, E>) -> (r: CacheStep<T, E>)
        ensures
            match fetched {
                Ok(v) => r == CacheStep::<T, E>::StoreAndAnswer(v),
                Err(e) => r == CacheStep::<T, E>::Answer(Err(e)),
            },
    {
        match fetched {
            Ok(v) => CacheStep::StoreAndAnswer(v),
            Err(e) => CacheStep::Answer(Err(e)),
        }
    }
}

} // verus!

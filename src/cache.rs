//! The answer cache of one namespace: a sequence of entries, at most one per
//! query, read whole, changed in memory and written back whole.

use vstd::prelude::*;

verus! {

/// One remembered answer.
#[derive(Debug, Clone)]
pub struct CacheEntry {
    pub query: String,
    pub answer: String,
    pub timestamp: String,
}

/// What one namespace holds.
#[derive(Debug, Clone)]
pub struct Cache {
    pub entries: Vec<CacheEntry>,
}

/// Why a namespace could not be read or written.
#[derive(Debug, Clone, Copy, PartialEq, Eq)]
pub enum CacheError {
    /// The file exists but could not be read, or could not be written.
    Io,
    /// The file does not hold a cache document.
    Parse,
    /// There is no home directory to hold the file.
    HomeDirUnresolvable,
}

/// What was found where a namespace's file should be.
#[derive(Debug)]
pub enum CacheFile {
    /// The home directory could not be determined.
    NoHome,
    /// The file does not exist.
    Missing,
    /// The file exists but reading it failed.
    Unreadable,
    /// The file was read but is not a cache document.
    Malformed,
    /// The document the file holds.
    Parsed(Cache),
}

/// The entries a namespace holds, a missing file holding none.
pub open spec fn stored_entries(file: CacheFile) -> Result<Seq<CacheEntry>, CacheError> {
    match file {
        CacheFile::NoHome => Err(CacheError::HomeDirUnresolvable),
        CacheFile::Missing => Ok(Seq::empty()),
        CacheFile::Unreadable => Err(CacheError::Io),
        CacheFile::Malformed => Err(CacheError::Parse),
        CacheFile::Parsed(c) => Ok(c.entries@),
    }
}

/// The text an optional answer holds.
pub open spec fn answer_view(o: Option<String>) -> Option<Seq<char>> {
    match o {
        Some(a) => Some(a@),
        None => None,
    }
}

/// The answer of the first entry whose query is `q`, if there is one.
pub open spec fn lookup_in(entries: Seq<CacheEntry>, q: Seq<char>) -> Option<Seq<char>>
    decreases entries.len(),
{
    if entries.len() == 0 {
        None
    } else {
        match lookup_in(entries.drop_last(), q) {
            Some(a) => Some(a),
            None => if entries.last().query@ == q {
                Some(entries.last().answer@)
            } else {
                None
            },
        }
    }
}

/// The entries whose query is not `q`, in their order.
pub open spec fn without(entries: Seq<CacheEntry>, q: Seq<char>) -> Seq<CacheEntry>
    decreases entries.len(),
{
    if entries.len() == 0 {
        entries
    } else if entries.last().query@ == q {
        without(entries.drop_last(), q)
    } else {
        without(entries.drop_last(), q).push(entries.last())
    }
}

/// How many entries have the query `q`.
pub open spec fn count_of(entries: Seq<CacheEntry>, q: Seq<char>) -> nat
    decreases entries.len(),
{
    if entries.len() == 0 {
        0
    } else {
        count_of(entries.drop_last(), q) + if entries.last().query@ == q {
            1nat
        } else {
            0nat
        }
    }
}

/// No two entries share a query.
pub open spec fn unique_queries(entries: Seq<CacheEntry>) -> bool {
    forall|q: Seq<char>| #[trigger] count_of(entries, q) <= 1
}

/// `after` is `before` once an entry for `q` with the answer `a` was stored:
/// every other entry kept in order, the new one last.
pub open spec fn stored_after(
    before: Seq<CacheEntry>,
    after: Seq<CacheEntry>,
    q: Seq<char>,
    a: Seq<char>,
) -> bool {
    &&& after.len() == without(before, q).len() + 1
    &&& after.drop_last() == without(before, q)
    &&& after.last().query@ == q
    &&& after.last().answer@ == a
}

/// Where a prefix already answers `q`, the whole sequence gives that answer.
proof fn lemma_lookup_prefix(s: Seq<CacheEntry>, i: int, q: Seq<char>)
    requires
        0 <= i <= s.len(),
        lookup_in(s.subrange(0, i), q) is Some,
    ensures
        lookup_in(s, q) == lookup_in(s.subrange(0, i), q),
    decreases s.len(),
{
    if i == s.len() {
        assert(s.subrange(0, i) =~= s);
    } else {
        assert(s.drop_last().subrange(0, i) =~= s.subrange(0, i));
        lemma_lookup_prefix(s.drop_last(), i, q);
    }
}

/// Relies on chrono::Utc::now and DateTime::to_rfc3339_opts: the current UTC
/// time at second precision, in RFC 3339 form with a `Z` suffix.
#[verifier::external_body]
fn utc_timestamp() -> (r: String) {
    chrono::Utc::now().to_rfc3339_opts(chrono::SecondsFormat::Secs, true)
}

impl Cache {
    /// A namespace with no entries.
    pub fn new() -> (r: Cache)
        ensures
            r.entries@.len() == 0,
    {
        Cache { entries: Vec::new() }
    }

    /// The answer of the first entry whose query is `query`.
    pub fn find(&self, query: &str) -> (r: Option<&str>)
        ensures
            r is None <==> lookup_in(self.entries@, query@) is None,
            r is Some ==> lookup_in(self.entries@, query@) == Some(r->0@),
    {
        let q = query.to_owned();
        let n = self.entries.len();
        let mut i: usize = 0;
        while i < n
            invariant
                n == self.entries@.len(),
                0 <= i <= n,
                q@ == query@,
                lookup_in(self.entries@.subrange(0, i as int), query@) is None,
            decreases n - i,
        {
            let entry = &self.entries[i];
            let ghost s = self.entries@;
            assert(s.subrange(0, i + 1).drop_last() =~= s.subrange(0, i as int));
            if entry.query == q {
                proof { lemma_lookup_prefix(s, i + 1, query@); }
                return Some(entry.answer.as_str());
            }
            i = i + 1;
        }
        assert(self.entries@.subrange(0, n as int) =~= self.entries@);
        None
    }

    /// Records `answer` for `query`, stamped with the current UTC time, after
    /// dropping every earlier entry for `query`.
    pub fn insert(&mut self, query: String, answer: String)
        ensures
            stored_after(old(self).entries@, final(self).entries@, query@, answer@),
            unique_queries(old(self).entries@) ==> unique_queries(final(self).entries@),
    {
        let ghost before = self.entries@;
        let mut kept: Vec<CacheEntry> = Vec::new();
        let n = self.entries.len();
        let mut i: usize = 0;
        while i < n
            invariant
                self.entries@ == before,
                n == before.len(),
                0 <= i <= n,
                kept@ == without(before.subrange(0, i as int), query@),
            decreases n - i,
        {
            let e = &self.entries[i];
            assert(before.subrange(0, i + 1).drop_last() =~= before.subrange(0, i as int));
            if e.query != query {
                kept.push(
                    CacheEntry {
                        query: e.query.clone(),
                        answer: e.answer.clone(),
                        timestamp: e.timestamp.clone(),
                    },
                );
            }
            i = i + 1;
        }
        assert(before.subrange(0, n as int) =~= before);
        let timestamp = utc_timestamp();
        let ghost k = kept@;
        kept.push(CacheEntry { query, answer, timestamp });
        assert(kept@.drop_last() =~= k);
        proof {
            if unique_queries(before) {
                lemma_store_keeps_unique(before, kept@, kept@.last().query@, kept@.last().answer@);
            }
        }
        self.entries = kept;
    }
}

/// The cache held by `file`, a missing file giving an empty one.
fn load(file: CacheFile) -> (r: Result<Cache, CacheError>)
    ensures
        match stored_entries(file) {
            Ok(s) => r is Ok && r->Ok_0.entries@ == s,
            Err(e) => r is Err && r->Err_0 == e,
        },
{
    match file {
        CacheFile::NoHome => Err(CacheError::HomeDirUnresolvable),
        CacheFile::Missing => Ok(Cache::new()),
        CacheFile::Unreadable => Err(CacheError::Io),
        CacheFile::Malformed => Err(CacheError::Parse),
        CacheFile::Parsed(c) => Ok(c),
    }
}

/// Looks `query` up in the namespace whose file is `file`.
pub fn read_cache(file: CacheFile, query: &str) -> (r: Result<Option<String>, CacheError>)
    ensures
        match stored_entries(file) {
            Ok(s) => r is Ok && answer_view(r->Ok_0) == lookup_in(s, query@),
            Err(e) => r is Err && r->Err_0 == e,
        },
{
    let cache = load(file)?;
    match cache.find(query) {
        Some(a) => Ok(Some(a.to_owned())),
        None => Ok(None),
    }
}

/// Stores `answer` for `query` in the namespace whose file is `file`, and
/// returns the whole cache to be written back.
pub fn write_cache(file: CacheFile, query: &str, answer: &str) -> (r: Result<Cache, CacheError>)
    ensures
        match stored_entries(file) {
            Ok(s) => r is Ok && stored_after(s, r->Ok_0.entries@, query@, answer@) && (
            unique_queries(s) ==> unique_queries(r->Ok_0.entries@)),
            Err(e) => r is Err && r->Err_0 == e,
        },
{
    let mut cache = load(file)?;
    cache.insert(query.to_owned(), answer.to_owned());
    Ok(cache)
}

proof fn lemma_without_counts(s: Seq<CacheEntry>, q: Seq<char>, other: Seq<char>)
    ensures
        count_of(without(s, q), other) == if other == q {
            0
        } else {
            count_of(s, other)
        },
    decreases s.len(),
{
    if s.len() > 0 {
        let t = without(s.drop_last(), q);
        lemma_without_counts(s.drop_last(), q, other);
        assert(t.push(s.last()).drop_last() =~= t);
    }
}

proof fn lemma_without_lookup(s: Seq<CacheEntry>, q: Seq<char>, other: Seq<char>)
    requires
        other != q,
    ensures
        lookup_in(without(s, q), other) == lookup_in(s, other),
    decreases s.len(),
{
    if s.len() > 0 {
        let t = without(s.drop_last(), q);
        lemma_without_lookup(s.drop_last(), q, other);
        assert(t.push(s.last()).drop_last() =~= t);
    }
}

/// Storing keeps every query to at most one entry.
pub proof fn lemma_store_keeps_unique(
    before: Seq<CacheEntry>,
    after: Seq<CacheEntry>,
    query: Seq<char>,
    answer: Seq<char>,
)
    requires
        unique_queries(before),
        stored_after(before, after, query, answer),
    ensures
        unique_queries(after),
{
    assert forall|q: Seq<char>| #[trigger] count_of(after, q) <= 1 by {
        lemma_without_counts(before, query, q);
        assert(count_of(before, q) <= 1);
    }
}

/// Storing an answer for one query leaves what every other query finds as
/// it was: a query never stored is still not found.
pub proof fn lemma_store_leaves_others(
    before: Seq<CacheEntry>,
    after: Seq<CacheEntry>,
    query: Seq<char>,
    answer: Seq<char>,
    other: Seq<char>,
)
    requires
        stored_after(before, after, query, answer),
        other != query,
    ensures
        lookup_in(after, other) == lookup_in(before, other),
{
    lemma_without_lookup(before, query, other);
    assert(after.drop_last() == without(before, query));
}

/// A query is found exactly when some entry holds it: one that was never
/// stored is not found.
pub proof fn lemma_absent_not_found(s: Seq<CacheEntry>, q: Seq<char>)
    ensures
        lookup_in(s, q) is None <==> count_of(s, q) == 0,
    decreases s.len(),
{
    if s.len() > 0 {
        lemma_absent_not_found(s.drop_last(), q);
    }
}

/// After `answer` is stored for `query`, looking `query` up gives `answer`.
pub proof fn lemma_store_then_lookup(
    before: Seq<CacheEntry>,
    after: Seq<CacheEntry>,
    query: Seq<char>,
    answer: Seq<char>,
)
    requires
        stored_after(before, after, query, answer),
    ensures
        lookup_in(after, query) == Some(answer),
        count_of(after, query) == 1,
{
    lemma_without_counts(before, query, query);
    lemma_absent_not_found(without(before, query), query);
}

/// Storing twice for one query leaves a single entry for it, with the
/// second answer.
pub proof fn lemma_overwrite(
    s0: Seq<CacheEntry>,
    s1: Seq<CacheEntry>,
    s2: Seq<CacheEntry>,
    query: Seq<char>,
    a1: Seq<char>,
    a2: Seq<char>,
)
    requires
        stored_after(s0, s1, query, a1),
        stored_after(s1, s2, query, a2),
    ensures
        count_of(s2, query) == 1,
        lookup_in(s2, query) == Some(a2),
{
    lemma_store_then_lookup(s1, s2, query, a2);
}

/// A namespace whose file is missing answers every lookup as one whose file
/// holds no entries: neither finds anything.
pub proof fn lemma_missing_is_empty(c: Cache, query: Seq<char>)
    requires
        c.entries@.len() == 0,
    ensures
        stored_entries(CacheFile::Missing) == stored_entries(CacheFile::Parsed(c)),
        lookup_in(c.entries@, query) is None,
{
    assert(c.entries@ =~= Seq::<CacheEntry>::empty());
}

} // verus!

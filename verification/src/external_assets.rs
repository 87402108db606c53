//! Resolution of external image URLs to Discord media paths, with an LRU cache.
//!
//! An external URL is resolved through
//! `POST /api/v9/applications/{id}/external-assets`; the request itself is made
//! by the caller, between `resolve` (which answers from the cache or asks for
//! a fetch) and `complete` (which takes what the fetch returned).

use vstd::prelude::*;
use crate::activity::opt_view;
use crate::json::{is_json_array, str_at, str_at_pointer, top_is_array};
use crate::text::{str_concat, has_prefix, starts_with};

verus! {

/// Entries of the cache, as (image URL, media path), least recently used first.
pub type CacheEntries = Seq<(Seq<char>, Seq<char>)>;

/// The mathematical form of a resolver.
pub struct ResolverView {
    pub entries: CacheEntries,
    pub capacity: nat,
    pub evict_batch: nat,
}

/// `k` is the key of entry `i`.
pub open spec fn key_at(e: CacheEntries, k: Seq<char>, i: int) -> bool {
    0 <= i < e.len() && e[i].0 == k
}

/// Some entry has key `k`.
pub open spec fn has_key(e: CacheEntries, k: Seq<char>) -> bool {
    exists|i: int| key_at(e, k, i)
}

/// No key occurs twice.
pub open spec fn distinct_keys(e: CacheEntries) -> bool {
    forall|i: int, j: int| 0 <= i < e.len() && 0 <= j < e.len() && i != j ==> e[i].0 != e[j].0
}

/// The media path cached for `k`, if any.
pub open spec fn cached_value(e: CacheEntries, k: Seq<char>) -> Option<Seq<char>> {
    if has_key(e, k) {
        Some(e[choose|i: int| key_at(e, k, i)].1)
    } else {
        None
    }
}

/// The entries after `k` is marked as most recently used.
pub open spec fn promoted(e: CacheEntries, k: Seq<char>) -> CacheEntries {
    if has_key(e, k) {
        let i = choose|i: int| key_at(e, k, i);
        if i + 1 < e.len() {
            e.remove(i).push(e[i])
        } else {
            e
        }
    } else {
        e
    }
}

/// The entries with `(k, v)` added as most recently used, unless `k` is cached.
pub open spec fn with_entry(e: CacheEntries, k: Seq<char>, v: Seq<char>) -> CacheEntries {
    if has_key(e, k) {
        e
    } else {
        e.push((k, v))
    }
}

/// When the cache holds more than `capacity` entries, the `batch` least
/// recently used ones (all, when there are fewer) are dropped.
pub open spec fn evicted(e: CacheEntries, capacity: nat, batch: nat) -> CacheEntries {
    if e.len() > capacity {
        e.skip(if batch < e.len() { batch as int } else { e.len() as int })
    } else {
        e
    }
}

/// The entries after storing `(k, v)`.
pub open spec fn inserted(e: CacheEntries, k: Seq<char>, v: Seq<char>, capacity: nat, batch: nat) -> CacheEntries {
    evicted(with_entry(e, k, v), capacity, batch)
}

/// Every cached value is a media path.
pub open spec fn all_media_paths(e: CacheEntries) -> bool {
    forall|i: int| 0 <= i < e.len() ==> has_prefix(#[trigger] e[i].1, "mp:"@)
}

/// The resolver's invariant.
pub open spec fn resolver_wf(v: ResolverView) -> bool {
    &&& distinct_keys(v.entries)
    &&& v.evict_batch <= v.capacity
    &&& (v.evict_batch > 0 ==> v.entries.len() <= v.capacity)
    &&& all_media_paths(v.entries)
}

/// What `resolve` decided.
#[derive(Debug)]
pub enum ResolveStep {
    /// The answer is known without a request.
    Done(Option<String>),
    /// The URL must be sent to the external assets API; hand the returned
    /// path to `complete`.
    Fetch,
}

/// The view of an entry of the cache.
pub open spec fn entry_view(e: (String, String)) -> (Seq<char>, Seq<char>) {
    (e.0@, e.1@)
}

/// Resolves external image URLs to Discord's `mp:` format, caching the
/// results with LRU eviction.
pub struct ExternalAssetsResolver {
    /// Least recently used first.
    entries: Vec<(String, String)>,
    capacity: usize,
    /// At most `capacity`.
    evict_batch: usize,
}

impl View for ExternalAssetsResolver {
    type V = ResolverView;

    closed spec fn view(&self) -> ResolverView {
        ResolverView {
            entries: self.entries@.map_values(|e: (String, String)| entry_view(e)),
            capacity: self.capacity as nat,
            evict_batch: self.evict_batch as nat,
        }
    }
}

/// The number of entries the default resolver keeps.
pub open spec fn default_capacity() -> nat {
    128
}

/// The evict batch the default resolver is made with. Like any batch, `new`
/// clamps it to the capacity: with 128 entries the default resolver, once
/// over capacity, evicts the 128 least recently used entries, keeping only
/// the one just stored.
pub open spec fn default_evict_batch() -> nat {
    512
}

impl Default for ExternalAssetsResolver {
    fn default() -> (r: Self)
        ensures
            r@ == (ResolverView {
                entries: Seq::empty(),
                capacity: default_capacity(),
                evict_batch: if default_evict_batch() < default_capacity() {
                    default_evict_batch()
                } else {
                    default_capacity()
                },
            }),
    {
        ExternalAssetsResolver::new(128, 512)
    }
}

impl ExternalAssetsResolver {
    #[verifier::type_invariant]
    closed spec fn inv(&self) -> bool {
        resolver_wf(self@)
    }

    /// A resolver with an empty cache that keeps at most `capacity` entries and
    /// evicts at most `evict_batch` (clamped to `capacity`) at a time.
    pub fn new(capacity: usize, evict_batch: usize) -> (r: Self)
        ensures
            r@ == (ResolverView {
                entries: Seq::empty(),
                capacity: capacity as nat,
                evict_batch: if evict_batch < capacity { evict_batch as nat } else { capacity as nat },
            }),
            resolver_wf(r@),
    {
        let batch = if evict_batch < capacity { evict_batch } else { capacity };
        let r = ExternalAssetsResolver { entries: Vec::new(), capacity, evict_batch: batch };
        assert(r@.entries =~= Seq::<(Seq<char>, Seq<char>)>::empty());
        r
    }

    /// The position of `url` in the cache.
    fn find(&self, url: &String) -> (r: Option<usize>)
        ensures
            match r {
                Some(i) => key_at(self@.entries, url@, i as int) && i < self.entries@.len(),
                None => !has_key(self@.entries, url@),
            },
    {
        let mut i: usize = 0;
        while i < self.entries.len()
            invariant
                i <= self.entries@.len(),
                self@.entries.len() == self.entries@.len(),
                forall|k: int| 0 <= k < self.entries@.len() ==> #[trigger] self@.entries[k] == entry_view(self.entries@[k]),
                forall|k: int| 0 <= k < i ==> self@.entries[k].0 != url@,
            decreases self.entries@.len() - i,
        {
            if self.entries[i].0 == *url {
                return Some(i);
            }
            i = i + 1;
        }
        None
    }

    /// The cached media path for `image_url`.
    fn check_cache(&self, image_url: &str) -> (r: Option<String>)
        ensures
            opt_view(r) == cached_value(self@.entries, image_url@),
    {
        proof {
            use_type_invariant(self);
        }
        let key = String::from_str(image_url);
        match self.find(&key) {
            Some(i) => {
                proof {
                    lemma_unique_key(self@.entries, image_url@, i as int);
                }
                Some(self.entries[i].1.clone())
            },
            None => None,
        }
    }

    /// Marks `image_url` as the most recently used entry.
    fn promote(&mut self, image_url: &str)
        ensures
            final(self)@ == (ResolverView { entries: promoted(old(self)@.entries, image_url@), ..old(self)@ }),
            resolver_wf(final(self)@),
    {
        proof {
            use_type_invariant(&*self);
        }
        let key = String::from_str(image_url);
        match self.find(&key) {
            Some(pos) => {
                proof {
                    lemma_unique_key(self@.entries, image_url@, pos as int);
                }
                if pos < self.entries.len() - 1 {
                    let ghost old_view = self@;
                    let mut entries: Vec<(String, String)> = Vec::new();
                    std::mem::swap(&mut entries, &mut self.entries);
                    let e = entries.remove(pos);
                    entries.push(e);
                    proof {
                        lemma_promote_wf(old_view, image_url@, pos as int);
                        assert(entries@.map_values(|e: (String, String)| entry_view(e))
                            =~= promoted(old_view.entries, image_url@));
                    }
                    self.entries = entries;
                }
            },
            None => {},
        }
    }

    /// Stores `(image_url, result)`, then evicts when over capacity.
    fn update_cache(&mut self, image_url: &str, result: &str)
        requires
            has_prefix(result@, "mp:"@),
        ensures
            final(self)@ == (ResolverView {
                entries: inserted(
                    old(self)@.entries,
                    image_url@,
                    result@,
                    old(self)@.capacity,
                    old(self)@.evict_batch,
                ),
                ..old(self)@
            }),
            resolver_wf(final(self)@),
            has_key(final(self)@.entries, image_url@),
            has_key(old(self)@.entries, image_url@) ==> cached_value(final(self)@.entries, image_url@)
                == cached_value(old(self)@.entries, image_url@),
            !has_key(old(self)@.entries, image_url@) ==> cached_value(final(self)@.entries, image_url@)
                == Some(result@),
            old(self)@.evict_batch > 0 ==> final(self)@.entries.len() <= old(self)@.capacity,
    {
        proof {
            use_type_invariant(&*self);
            law_store_keeps_invariant(self@, image_url@, result@);
        }
        let ghost old_view = self@;
        let key = String::from_str(image_url);
        let found = self.find(&key);
        let mut entries: Vec<(String, String)> = Vec::new();
        std::mem::swap(&mut entries, &mut self.entries);
        if found.is_none() {
            entries.push((key, String::from_str(result)));
        }
        let ghost added = entries@.map_values(|e: (String, String)| entry_view(e));
        assert(added =~= with_entry(old_view.entries, image_url@, result@));
        if entries.len() > self.capacity {
            let batch = if self.evict_batch < entries.len() {
                self.evict_batch
            } else {
                entries.len()
            };
            let rest = entries.split_off(batch);
            entries = rest;
        }
        proof {
            lemma_insert_wf(old_view, image_url@, result@);
            assert(entries@.map_values(|e: (String, String)| entry_view(e))
                =~= inserted(old_view.entries, image_url@, result@, old_view.capacity, old_view.evict_batch));
        }
        self.entries = entries;
    }

    /// Answers `image_url` from what is known, or asks for a fetch.
    ///
    /// An empty URL resolves to nothing; a key that starts with `mp:` is
    /// already resolved; a cached URL is answered from the cache and becomes
    /// the most recently used entry; any other URL must be fetched.
    pub fn resolve(&mut self, image_url: &str) -> (r: ResolveStep)
        ensures
            image_url@.len() == 0 ==> r == ResolveStep::Done(None) && final(self)@ == old(self)@,
            image_url@.len() > 0 && has_prefix(image_url@, "mp:"@) ==> final(self)@ == old(self)@
                && (r matches ResolveStep::Done(Some(s)) && s@ == image_url@),
            image_url@.len() > 0 && !has_prefix(image_url@, "mp:"@) ==> match cached_value(
                old(self)@.entries,
                image_url@,
            ) {
                Some(v) => (r matches ResolveStep::Done(Some(s)) && s@ == v) && final(self)@
                    == (ResolverView { entries: promoted(old(self)@.entries, image_url@), ..old(self)@ }),
                None => r == ResolveStep::Fetch && final(self)@ == old(self)@,
            },
            resolver_wf(final(self)@),
    {
        proof {
            use_type_invariant(&*self);
        }
        if image_url.is_empty() {
            return ResolveStep::Done(None);
        }
        if starts_with(image_url, "mp:") {
            return ResolveStep::Done(Some(String::from_str(image_url)));
        }
        match self.check_cache(image_url) {
            Some(resolved) => {
                self.promote(image_url);
                ResolveStep::Done(Some(resolved))
            },
            None => ResolveStep::Fetch,
        }
    }

    /// Takes the external asset path that the fetch for `image_url` returned
    /// (nothing when the request failed) and gives the resolved `mp:` path,
    /// which is then cached.
    pub fn complete(&mut self, image_url: &str, fetched_path: Option<String>) -> (r: Option<String>)
        ensures
            match fetched_path {
                None => r is None && final(self)@ == old(self)@,
                Some(p) => (r matches Some(s) && s@ == "mp:"@ + p@) && final(self)@ == (ResolverView {
                    entries: inserted(
                        old(self)@.entries,
                        image_url@,
                        "mp:"@ + p@,
                        old(self)@.capacity,
                        old(self)@.evict_batch,
                    ),
                    ..old(self)@
                }),
            },
            resolver_wf(final(self)@),
    {
        proof {
            use_type_invariant(&*self);
        }
        match fetched_path {
            None => None,
            Some(path) => {
                let result = str_concat("mp:", path.as_str());
                proof {
                    reveal_strlit("mp:");
                    assert(result@.subrange(0, 3) =~= "mp:"@);
                }
                self.update_cache(image_url, result.as_str());
                Some(result)
            },
        }
    }

    /// The media path cached for `image_url`, without changing the order.
    pub fn cached(&self, image_url: &str) -> (r: Option<String>)
        ensures
            opt_view(r) == cached_value(self@.entries, image_url@),
    {
        self.check_cache(image_url)
    }

    /// The number of cached entries.
    pub fn len(&self) -> (n: usize)
        ensures
            n == self@.entries.len(),
    {
        self.entries.len()
    }
}

/// With distinct keys, the entry chosen for `k` is the one at `i`.
pub proof fn lemma_unique_key(e: CacheEntries, k: Seq<char>, i: int)
    requires
        distinct_keys(e),
        key_at(e, k, i),
    ensures
        has_key(e, k),
        (choose|j: int| key_at(e, k, j)) == i,
        cached_value(e, k) == Some(e[i].1),
{
    let j = choose|j: int| key_at(e, k, j);
    assert(key_at(e, k, j));
}

proof fn lemma_promote_wf(v: ResolverView, k: Seq<char>, i: int)
    requires
        resolver_wf(v),
        key_at(v.entries, k, i),
    ensures
        resolver_wf(ResolverView { entries: promoted(v.entries, k), ..v }),
{
    lemma_unique_key(v.entries, k, i);
    let e = v.entries;
    let p = promoted(e, k);
    if i + 1 < e.len() {
        assert(p == e.remove(i).push(e[i]));
        assert forall|a: int, b: int| 0 <= a < p.len() && 0 <= b < p.len() && a != b implies p[a].0
            != p[b].0 by {
            let ia = if a == p.len() - 1 { i } else if a < i { a } else { a + 1 };
            let ib = if b == p.len() - 1 { i } else if b < i { b } else { b + 1 };
            assert(p[a] == e[ia]);
            assert(p[b] == e[ib]);
        }
        assert forall|a: int| 0 <= a < p.len() implies has_prefix(#[trigger] p[a].1, "mp:"@) by {
            let ia = if a == p.len() - 1 { i } else if a < i { a } else { a + 1 };
            assert(p[a] == e[ia]);
        }
    }
}

proof fn lemma_insert_wf(v: ResolverView, k: Seq<char>, val: Seq<char>)
    requires
        resolver_wf(v),
        has_prefix(val, "mp:"@),
    ensures
        resolver_wf(ResolverView { entries: inserted(v.entries, k, val, v.capacity, v.evict_batch), ..v }),
{
    let e1 = with_entry(v.entries, k, val);
    assert(distinct_keys(e1)) by {
        if !has_key(v.entries, k) {
            assert forall|a: int, b: int| 0 <= a < e1.len() && 0 <= b < e1.len() && a != b implies e1[a].0
                != e1[b].0 by {
                if a == v.entries.len() as int {
                    assert(!key_at(v.entries, k, b));
                } else if b == v.entries.len() as int {
                    assert(!key_at(v.entries, k, a));
                }
            }
        }
    }
    assert(all_media_paths(e1));
    let e2 = evicted(e1, v.capacity, v.evict_batch);
    if e1.len() > v.capacity {
        let n: int = if v.evict_batch < e1.len() { v.evict_batch as int } else { e1.len() as int };
        assert(e2 == e1.skip(n));
        assert forall|a: int, b: int| 0 <= a < e2.len() && 0 <= b < e2.len() && a != b implies e2[a].0
            != e2[b].0 by {
            assert(e2[a] == e1[a + n]);
            assert(e2[b] == e1[b + n]);
        }
        assert forall|a: int| 0 <= a < e2.len() implies has_prefix(#[trigger] e2[a].1, "mp:"@) by {
            assert(e2[a] == e1[a + n]);
        }
    }
}

/// A media path just stored is in the cache afterwards, whatever was evicted:
/// the entry stored last is never among those evicted.
pub proof fn law_stored_is_cached(v: ResolverView, k: Seq<char>, val: Seq<char>)
    requires
        resolver_wf(v),
        !has_key(v.entries, k),
    ensures
        cached_value(inserted(v.entries, k, val, v.capacity, v.evict_batch), k) == Some(val),
{
    let e1 = v.entries.push((k, val));
    let e2 = inserted(v.entries, k, val, v.capacity, v.evict_batch);
    assert(with_entry(v.entries, k, val) == e1);
    assert(distinct_keys(e1)) by {
        assert forall|a: int, b: int| 0 <= a < e1.len() && 0 <= b < e1.len() && a != b implies e1[a].0
            != e1[b].0 by {
            if a == v.entries.len() as int {
                assert(!key_at(v.entries, k, b));
            } else if b == v.entries.len() as int {
                assert(!key_at(v.entries, k, a));
            }
        }
    }
    if e1.len() > v.capacity {
        let n: int = if v.evict_batch < e1.len() { v.evict_batch as int } else { e1.len() as int };
        assert(n < e1.len());
        assert(e2 == e1.skip(n));
        let last = e2.len() - 1;
        assert(e2[last] == e1[e1.len() - 1]);
        assert(distinct_keys(e2)) by {
            assert forall|a: int, b: int| 0 <= a < e2.len() && 0 <= b < e2.len() && a != b implies e2[a].0
                != e2[b].0 by {
                assert(e2[a] == e1[a + n]);
                assert(e2[b] == e1[b + n]);
            }
        }
        lemma_unique_key(e2, k, last);
    } else {
        lemma_unique_key(e1, k, e1.len() - 1);
    }
}

/// Storing a media path for `k` keeps the resolver's invariant (no key twice,
/// every value a media path, within capacity when the evict batch is
/// positive), and `k` is cached afterwards: with the value just stored when
/// it was not cached before, and with its earlier value, never overwritten,
/// when it was.
pub proof fn law_store_keeps_invariant(v: ResolverView, k: Seq<char>, val: Seq<char>)
    requires
        resolver_wf(v),
        has_prefix(val, "mp:"@),
    ensures
        resolver_wf(ResolverView { entries: inserted(v.entries, k, val, v.capacity, v.evict_batch), ..v }),
        has_key(inserted(v.entries, k, val, v.capacity, v.evict_batch), k),
        has_key(v.entries, k) ==> cached_value(inserted(v.entries, k, val, v.capacity, v.evict_batch), k)
            == cached_value(v.entries, k),
        !has_key(v.entries, k) ==> cached_value(inserted(v.entries, k, val, v.capacity, v.evict_batch), k)
            == Some(val),
{
    lemma_insert_wf(v, k, val);
    if has_key(v.entries, k) {
        assert(inserted(v.entries, k, val, v.capacity, v.evict_batch) == v.entries);
    } else {
        law_stored_is_cached(v, k, val);
    }
}

/// When the evict batch is positive, storing an entry never leaves more than
/// `capacity` entries behind.
pub proof fn law_stays_within_capacity(v: ResolverView, k: Seq<char>, val: Seq<char>)
    requires
        resolver_wf(v),
        v.evict_batch > 0,
    ensures
        inserted(v.entries, k, val, v.capacity, v.evict_batch).len() <= v.capacity,
{
}

/// Marking an entry as most recently used changes no cached value, and puts
/// that entry last.
pub proof fn law_hit_keeps_values(v: ResolverView, k: Seq<char>, other: Seq<char>)
    requires
        resolver_wf(v),
        has_key(v.entries, k),
    ensures
        cached_value(promoted(v.entries, k), other) == cached_value(v.entries, other),
        promoted(v.entries, k).len() == v.entries.len(),
        promoted(v.entries, k).last().0 == k,
{
    let e = v.entries;
    let i = choose|i: int| key_at(e, k, i);
    lemma_unique_key(e, k, i);
    lemma_promote_wf(v, k, i);
    let p = promoted(e, k);
    if i + 1 < e.len() {
        if has_key(e, other) {
            let j = choose|j: int| key_at(e, other, j);
            lemma_unique_key(e, other, j);
            let pj = if j == i { p.len() - 1 } else if j < i { j } else { j - 1 };
            assert(p[pj] == e[j]);
            assert(key_at(p, other, pj));
            lemma_unique_key(p, other, pj);
        } else {
            assert forall|a: int| !key_at(p, other, a) by {
                if 0 <= a < p.len() {
                    let ia = if a == p.len() - 1 { i } else if a < i { a } else { a + 1 };
                    assert(p[a] == e[ia]);
                    assert(!key_at(e, other, ia));
                }
            }
        }
    }
}

/// The address of the external assets endpoint of an application.
pub open spec fn external_assets_url_of(app_id: Seq<char>) -> Seq<char> {
    "https://discord.com/api/v9/applications/"@ + app_id + "/external-assets"@
}

/// The external assets endpoint for `app_id`.
pub fn external_assets_url(app_id: &str) -> (u: String)
    ensures
        u@ == external_assets_url_of(app_id@),
{
    let u = str_concat("https://discord.com/api/v9/applications/", app_id);
    u.concat("/external-assets")
}

/// The `Authorization` header value for a user token.
pub fn authorization_header(token: &str) -> (h: String)
    ensures
        h@ == "Bearer "@ + token@,
{
    str_concat("Bearer ", token)
}

/// The body of an external assets request: the URLs to resolve.
#[derive(Debug)]
pub struct ExternalAssetsRequest {
    pub urls: Vec<String>,
}

/// The request body that asks for one URL.
pub fn external_assets_request(image_url: &str) -> (b: ExternalAssetsRequest)
    ensures
        b.urls@.len() == 1,
        b.urls@[0]@ == image_url@,
{
    let mut urls: Vec<String> = Vec::new();
    urls.push(String::from_str(image_url));
    ExternalAssetsRequest { urls }
}

/// The path an external assets response carries, from its parts: nothing
/// unless the status is a success, the body is not empty and is a JSON
/// array; then the `external_asset_path` string of its first element.
pub open spec fn asset_path_of(success: bool, body_empty: bool, is_array: bool, path: Option<Seq<char>>) -> Option<Seq<char>> {
    if !success || body_empty || !is_array {
        None
    } else {
        path
    }
}

/// The path that an external assets response carries.
pub open spec fn asset_path_in(success: bool, body: Seq<char>) -> Option<Seq<char>> {
    asset_path_of(success, body.len() == 0, is_json_array(body), str_at(body, "/0/external_asset_path"@))
}

/// The path an external assets response carries, from its parts.
pub fn asset_path_from(success: bool, body_empty: bool, is_array: bool, path: Option<String>) -> (r: Option<String>)
    ensures
        opt_view(r) == asset_path_of(success, body_empty, is_array, opt_view(path)),
{
    if !success || body_empty || !is_array {
        None
    } else {
        path
    }
}

/// Reads the external asset path out of a response: nothing when the status
/// is not a success, the body is empty, is not a JSON array, or its first
/// element has no string `external_asset_path`.
pub fn asset_path_from_response(success: bool, body: &str) -> (r: Option<String>)
    ensures
        opt_view(r) == asset_path_in(success, body@),
{
    let is_array = top_is_array(body);
    let path = str_at_pointer(body, "/0/external_asset_path");
    asset_path_from(success, body.is_empty(), is_array, path)
}

/// Whatever the cache answers is a media path (`mp:...`).
pub proof fn law_cached_values_are_media_paths(v: ResolverView, k: Seq<char>)
    requires
        resolver_wf(v),
    ensures
        cached_value(v.entries, k) matches Some(p) ==> has_prefix(p, "mp:"@),
{
    if has_key(v.entries, k) {
        let i = choose|i: int| key_at(v.entries, k, i);
        assert(has_prefix(v.entries[i].1, "mp:"@));
    }
}

/// With a positive evict batch the cache never holds more than its
/// capacity: the default resolver keeps at most 128 entries.
pub proof fn law_cache_within_capacity(v: ResolverView)
    requires
        resolver_wf(v),
        v.evict_batch > 0,
    ensures
        v.entries.len() <= v.capacity,
{
}

} // verus!

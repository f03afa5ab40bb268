//! The asset store, content fingerprints, and the per-path metadata cache.

use vstd::prelude::*;

use std::hash::{BuildHasher, BuildHasherDefault, DefaultHasher};

use crate::text::{decimal, decimal_text, same_text};

verus! {

/// What the MIME guess for a path yields: the type's text, if any.
pub uninterp spec fn guessed_mime(path: Seq<char>) -> Option<Seq<char>>;

/// The 64-bit fingerprint of a byte sequence.
pub uninterp spec fn content_hash(data: Seq<u8>) -> u64;

/// Relies on `mime_guess::from_path(..).first()`: the first MIME type
/// registered for the path's extension, rendered as text. The guess reads the
/// path alone.
#[verifier::external_body]
fn guess_mime(path: &str) -> (r: Option<String>)
    ensures
        opt_text(r) == guessed_mime(path@),
{
    mime_guess::from_path(path).first().map(|m| m.to_string())
}

/// Relies on std's `DefaultHasher` (built through `BuildHasherDefault`, so
/// with the fixed keys of `DefaultHasher::new`): `hash_one` feeds the slice to
/// a fresh hasher and returns `finish`, which depends on the bytes alone.
#[verifier::external_body]
fn hash_bytes(data: &[u8]) -> (r: u64)
    ensures
        r == content_hash(data@),
{
    BuildHasherDefault::<DefaultHasher>::default().hash_one(data)
}

/// The view of an optional string.
pub open spec fn opt_text(s: Option<String>) -> Option<Seq<char>> {
    match s {
        Some(t) => Some(t@),
        None => None,
    }
}

/// `"<n>"`: the decimal rendering of `n` between double quotes.
pub open spec fn etag_text(n: u64) -> Seq<char> {
    seq!['"'] + decimal(n as nat) + seq!['"']
}

/// Fingerprint of an asset's content.
#[derive(Clone, Copy, Debug, PartialEq, Eq, Structural)]
pub struct AssetHash(pub u64);

impl AssetHash {
    /// The ETag form of the hash: its decimal value between double quotes.
    pub fn quoted(&self) -> (r: String)
        ensures
            r@ == etag_text(self.0),
    {
        proof {
            reveal_strlit("\"");
        }
        let mut s = String::from_str("\"");
        let digits = decimal_text(self.0);
        s.append(digits.as_str());
        s.append("\"");
        s
    }
}

/// The abstract value of `AssetMetadata`.
pub struct MetadataView {
    pub mime_type: Option<Seq<char>>,
    pub hash: u64,
}

/// MIME type and content hash of one asset.
#[derive(Clone, Debug)]
pub struct AssetMetadata {
    pub mime_type: Option<String>,
    pub hash: AssetHash,
}

impl View for AssetMetadata {
    type V = MetadataView;

    open spec fn view(&self) -> MetadataView {
        MetadataView { mime_type: opt_text(self.mime_type), hash: self.hash.0 }
    }
}

impl AssetMetadata {
    /// Whether `etag` is exactly this asset's quoted hash.
    pub fn etag_matches(&self, etag: &str) -> (r: bool)
        ensures
            r == (etag@ == etag_text(self.hash.0)),
    {
        let quoted = self.hash.quoted();
        same_text(etag, quoted.as_str())
    }

    /// A copy with the same view.
    pub fn duplicate(&self) -> (r: AssetMetadata)
        ensures
            r@ == self@,
    {
        let mime_type = match &self.mime_type {
            Some(m) => Some(m.clone()),
            None => None,
        };
        AssetMetadata { mime_type, hash: self.hash }
    }
}

/// The metadata that `path` with content `data` has.
pub open spec fn metadata_of(path: Seq<char>, data: Seq<u8>) -> MetadataView {
    MetadataView { mime_type: guessed_mime(path), hash: content_hash(data) }
}

/// Computes the metadata of `path` with content `data`.
pub fn compute_metadata(path: &str, data: &[u8]) -> (r: AssetMetadata)
    ensures
        r@ == metadata_of(path@, data@),
{
    let mime_type = guess_mime(path);
    let hash = AssetHash(hash_bytes(data));
    AssetMetadata { mime_type, hash }
}

/// Content of the last entry for `k` in `files`, if any.
pub closed spec fn file_lookup(files: Seq<(String, Vec<u8>)>, k: Seq<char>) -> Option<Seq<u8>>
    decreases files.len(),
{
    if files.len() == 0 {
        None
    } else if files.last().0@ == k {
        Some(files.last().1@)
    } else {
        file_lookup(files.drop_last(), k)
    }
}

/// The asset store: an immutable mapping from relative paths (no leading
/// slash) to byte content, filled once at start-up.
///
/// The files are a list searched from the newest entry back, so a later
/// insert of a path shadows an earlier one. vstd states what a `HashMap`
/// lookup returns only for keys that obey its key model, which it grants to
/// integer and `bool` keys but not to `String`; with a `HashMap<String, _>`
/// no lookup here could be proved. The list lets every lookup be proved
/// against the store's view.
pub struct WebAssets {
    files: Vec<(String, Vec<u8>)>,
}

impl View for WebAssets {
    type V = Map<Seq<char>, Seq<u8>>;

    closed spec fn view(&self) -> Map<Seq<char>, Seq<u8>> {
        Map::new(
            |k: Seq<char>| file_lookup(self.files@, k) is Some,
            |k: Seq<char>| file_lookup(self.files@, k)->0,
        )
    }
}

impl WebAssets {
    /// An empty store.
    pub fn new() -> (r: WebAssets)
        ensures
            r@ == Map::<Seq<char>, Seq<u8>>::empty(),
    {
        let r = WebAssets { files: Vec::new() };
        assert(r@ =~= Map::<Seq<char>, Seq<u8>>::empty());
        r
    }

    /// Adds the file `path` with content `data`, replacing any earlier one.
    pub fn insert(&mut self, path: String, data: Vec<u8>)
        ensures
            final(self)@ == old(self)@.insert(path@, data@),
    {
        let ghost k = path@;
        let ghost d = data@;
        self.files.push((path, data));
        assert(self.files@.drop_last() =~= old(self).files@);
        assert(self@ =~= old(self)@.insert(k, d));
    }

    /// The content stored under `path`.
    pub fn get(&self, path: &str) -> (r: Option<&Vec<u8>>)
        ensures
            match r {
                Some(d) => self@.contains_key(path@) && d@ == self@[path@],
                None => !self@.contains_key(path@),
            },
    {
        let n = self.files.len();
        let mut i: usize = n;
        assert(self.files@.subrange(0, n as int) =~= self.files@);
        while i > 0
            invariant
                n == self.files@.len(),
                i <= n,
                file_lookup(self.files@, path@) == file_lookup(
                    self.files@.subrange(0, i as int),
                    path@,
                ),
            decreases i,
        {
            let ghost sub = self.files@.subrange(0, i as int);
            assert(sub.drop_last() =~= self.files@.subrange(0, i - 1));
            if same_text(self.files[i - 1].0.as_str(), path) {
                return Some(&self.files[i - 1].1);
            }
            i = i - 1;
        }
        None
    }
}

/// Metadata of the last entry for `k` in `entries`, if any.
pub closed spec fn entry_lookup(entries: Seq<(String, AssetMetadata)>, k: Seq<char>) -> Option<
    MetadataView,
>
    decreases entries.len(),
{
    if entries.len() == 0 {
        None
    } else if entries.last().0@ == k {
        Some(entries.last().1@)
    } else {
        entry_lookup(entries.drop_last(), k)
    }
}

/// Memoised asset metadata, keyed by path. An entry, once present, is never
/// recomputed or replaced.
///
/// Held as a list of entries searched one by one, for the same reason as
/// `WebAssets`: a lookup in it is proved against the cache's view, which a
/// `HashMap<String, _>` would not allow. A path enters at most once, as only
/// a miss adds an entry.
pub struct MetadataCache {
    entries: Vec<(String, AssetMetadata)>,
}

impl View for MetadataCache {
    type V = Map<Seq<char>, MetadataView>;

    closed spec fn view(&self) -> Map<Seq<char>, MetadataView> {
        Map::new(
            |k: Seq<char>| entry_lookup(self.entries@, k) is Some,
            |k: Seq<char>| entry_lookup(self.entries@, k)->0,
        )
    }
}

/// The metadata that a lookup of `path` with content `data` yields from `cache`.
pub open spec fn cached_metadata(
    cache: Map<Seq<char>, MetadataView>,
    path: Seq<char>,
    data: Seq<u8>,
) -> MetadataView {
    if cache.contains_key(path) {
        cache[path]
    } else {
        metadata_of(path, data)
    }
}

/// The cache after a lookup of `path` with content `data`.
pub open spec fn cache_after(
    cache: Map<Seq<char>, MetadataView>,
    path: Seq<char>,
    data: Seq<u8>,
) -> Map<Seq<char>, MetadataView> {
    if cache.contains_key(path) {
        cache
    } else {
        cache.insert(path, metadata_of(path, data))
    }
}

impl MetadataCache {
    /// How many metadata computations this cache has stored.
    pub closed spec fn computations(&self) -> nat {
        self.entries@.len()
    }

    /// An empty cache.
    pub fn new() -> (r: MetadataCache)
        ensures
            r@ == Map::<Seq<char>, MetadataView>::empty(),
            r.computations() == 0,
    {
        let r = MetadataCache { entries: Vec::new() };
        assert(r@ =~= Map::<Seq<char>, MetadataView>::empty());
        r
    }

    /// How many metadata computations this cache has stored.
    pub fn computed(&self) -> (r: usize)
        ensures
            r == self.computations(),
    {
        self.entries.len()
    }

    /// The cached metadata of `path`, if any.
    pub fn lookup(&self, path: &str) -> (r: Option<AssetMetadata>)
        ensures
            match r {
                Some(m) => self@.contains_key(path@) && m@ == self@[path@],
                None => !self@.contains_key(path@),
            },
    {
        match self.find(path) {
            Some(i) => Some(self.entries[i].1.duplicate()),
            None => None,
        }
    }

    fn find(&self, path: &str) -> (r: Option<usize>)
        ensures
            match r {
                Some(i) => i < self.entries@.len() && self@.contains_key(path@)
                    && self.entries@[i as int].1@ == self@[path@],
                None => !self@.contains_key(path@),
            },
    {
        let n = self.entries.len();
        let mut i: usize = n;
        assert(self.entries@.subrange(0, n as int) =~= self.entries@);
        while i > 0
            invariant
                n == self.entries@.len(),
                i <= n,
                entry_lookup(self.entries@, path@) == entry_lookup(
                    self.entries@.subrange(0, i as int),
                    path@,
                ),
            decreases i,
        {
            let ghost sub = self.entries@.subrange(0, i as int);
            assert(sub.drop_last() =~= self.entries@.subrange(0, i - 1));
            if same_text(self.entries[i - 1].0.as_str(), path) {
                return Some(i - 1);
            }
            i = i - 1;
        }
        None
    }
}

/// The metadata of `path`, whose content is `data`: the cached entry when
/// there is one, else computed and stored.
pub fn get_asset_metadata_cached(cache: &mut MetadataCache, path: &str, data: &[u8]) -> (r:
    AssetMetadata)
    ensures
        r@ == cached_metadata(old(cache)@, path@, data@),
        final(cache)@ == cache_after(old(cache)@, path@, data@),
        final(cache).computations() == old(cache).computations() + if old(cache)@.contains_key(
            path@,
        ) {
            0int
        } else {
            1int
        },
{
    match cache.find(path) {
        Some(i) => cache.entries[i].1.duplicate(),
        None => {
            let meta = compute_metadata(path, data);
            let stored = meta.duplicate();
            let ghost k = path@;
            let ghost m = meta@;
            cache.entries.push((path.to_owned(), stored));
            assert(cache.entries@.drop_last() =~= old(cache).entries@);
            assert(cache@ =~= old(cache)@.insert(k, m));
            meta
        },
    }
}

/// Two lookups of one path with one content, each in a cache that does not
/// hold the path yet, compute the same metadata: the MIME type guessed from
/// the path and the hash of the content.
pub proof fn metadata_is_deterministic(
    first: Map<Seq<char>, MetadataView>,
    second: Map<Seq<char>, MetadataView>,
    path: Seq<char>,
    data: Seq<u8>,
)
    requires
        !first.contains_key(path),
        !second.contains_key(path),
    ensures
        cached_metadata(first, path, data) == cached_metadata(second, path, data),
        cached_metadata(first, path, data).mime_type == guessed_mime(path),
        cached_metadata(first, path, data).hash == content_hash(data),
{
}

/// Once a lookup of `path` has stored its metadata, every later lookup of
/// `path` returns that same metadata and leaves the cache unchanged, so
/// nothing is computed again.
pub proof fn cache_is_coherent(cache: Map<Seq<char>, MetadataView>, path: Seq<char>, data: Seq<u8>)
    ensures
        forall|later: Seq<u8>|
            #[trigger] cached_metadata(cache_after(cache, path, data), path, later)
                == cached_metadata(cache, path, data),
        forall|later: Seq<u8>|
            #[trigger] cache_after(cache_after(cache, path, data), path, later) == cache_after(
                cache,
                path,
                data,
            ),
{
}

} // verus!

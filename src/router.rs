//! The per-request decision: serve an asset, answer 304, fall back to the
//! SPA entry document, or fail with 404 or 500.

use vstd::prelude::*;

use crate::assets::{
    cache_after, cached_metadata, etag_text, get_asset_metadata_cached, AssetMetadata,
    MetadataCache, MetadataView, WebAssets,
};
use crate::policy::{asset_prefix, cache_control_for, index_path, policy_of};
use crate::text::{has_prefix, same_text, starts_with};

verus! {

/// The outcome of a request for a static path.
#[derive(Debug)]
pub enum AssetResponse {
    /// 304 Not Modified, with no body.
    NotModified,
    /// 200 OK with the asset and its headers.
    Found { content_type: String, etag: String, cache_control: String, body: Vec<u8> },
    /// 404 Not Found: a miss inside the `assets/` namespace.
    AssetNotFound,
    /// 500 Internal Server Error: the entry document is not in the store.
    MissingEntryDocument,
}

/// The abstract value of `AssetResponse`.
pub enum ResponseView {
    NotModified,
    Found { content_type: Seq<char>, etag: Seq<char>, cache_control: Seq<char>, body: Seq<u8> },
    AssetNotFound,
    MissingEntryDocument,
}

impl View for AssetResponse {
    type V = ResponseView;

    open spec fn view(&self) -> ResponseView {
        match self {
            AssetResponse::NotModified => ResponseView::NotModified,
            AssetResponse::Found { content_type, etag, cache_control, body } => ResponseView::Found {
                content_type: content_type@,
                etag: etag@,
                cache_control: cache_control@,
                body: body@,
            },
            AssetResponse::AssetNotFound => ResponseView::AssetNotFound,
            AssetResponse::MissingEntryDocument => ResponseView::MissingEntryDocument,
        }
    }
}

/// The HTTP status code of a response.
pub open spec fn status_of(r: ResponseView) -> u16 {
    match r {
        ResponseView::NotModified => 304,
        ResponseView::Found { .. } => 200,
        ResponseView::AssetNotFound => 404,
        ResponseView::MissingEntryDocument => 500,
    }
}

impl AssetResponse {
    /// The HTTP status code of this response.
    pub fn status(&self) -> (r: u16)
        ensures
            r == status_of(self@),
    {
        match self {
            AssetResponse::NotModified => 304,
            AssetResponse::Found { .. } => 200,
            AssetResponse::AssetNotFound => 404,
            AssetResponse::MissingEntryDocument => 500,
        }
    }
}

/// The view of an optional string slice.
pub open spec fn opt_str(s: Option<&str>) -> Option<Seq<char>> {
    match s {
        Some(t) => Some(t@),
        None => None,
    }
}

/// The request path with one leading `/` removed.
pub open spec fn normalized(p: Seq<char>) -> Seq<char> {
    if p.len() > 0 && p[0] == '/' {
        p.drop_first()
    } else {
        p
    }
}

/// The content type sent when no MIME type is known.
pub open spec fn octet_stream() -> Seq<char> {
    "application/octet-stream"@
}

/// The content type of the entry document.
pub open spec fn html_type() -> Seq<char> {
    "text/html"@
}

/// The content type of the asset `path` whose guessed MIME type is `m`: the
/// entry document is always sent as HTML, other assets as guessed, or as
/// `application/octet-stream` when nothing is known.
pub open spec fn content_type_of(path: Seq<char>, m: Option<Seq<char>>) -> Seq<char> {
    if path == index_path() {
        html_type()
    } else {
        match m {
            Some(t) => t,
            None => octet_stream(),
        }
    }
}

/// The answer for the asset `path`, with metadata `meta` and content `data`,
/// sent as `content_type`, to a request whose `If-None-Match` is `inm`.
pub open spec fn served(
    meta: MetadataView,
    data: Seq<u8>,
    path: Seq<char>,
    content_type: Seq<char>,
    inm: Option<Seq<char>>,
) -> ResponseView {
    if inm == Some(etag_text(meta.hash)) {
        ResponseView::NotModified
    } else {
        ResponseView::Found {
            content_type,
            etag: etag_text(meta.hash),
            cache_control: policy_of(path).directive_spec(),
            body: data,
        }
    }
}

/// The answer to a request for `request_path`, given the store, the cache
/// before the request, and the client's `If-None-Match`.
pub open spec fn response_for(
    store: Map<Seq<char>, Seq<u8>>,
    cache: Map<Seq<char>, MetadataView>,
    request_path: Seq<char>,
    inm: Option<Seq<char>>,
) -> ResponseView {
    let p = normalized(request_path);
    if store.contains_key(p) {
        let meta = cached_metadata(cache, p, store[p]);
        served(meta, store[p], p, content_type_of(p, meta.mime_type), inm)
    } else if has_prefix(p, asset_prefix()) {
        ResponseView::AssetNotFound
    } else if store.contains_key(index_path()) {
        let meta = cached_metadata(cache, index_path(), store[index_path()]);
        served(meta, store[index_path()], index_path(), html_type(), inm)
    } else {
        ResponseView::MissingEntryDocument
    }
}

/// The cache after a request for `request_path`.
pub open spec fn cache_after_request(
    store: Map<Seq<char>, Seq<u8>>,
    cache: Map<Seq<char>, MetadataView>,
    request_path: Seq<char>,
) -> Map<Seq<char>, MetadataView> {
    let p = normalized(request_path);
    if store.contains_key(p) {
        cache_after(cache, p, store[p])
    } else if has_prefix(p, asset_prefix()) {
        cache
    } else if store.contains_key(index_path()) {
        cache_after(cache, index_path(), store[index_path()])
    } else {
        cache
    }
}

/// `path` without one leading `/`.
fn strip_leading_slash(path: &str) -> (r: &str)
    ensures
        r@ == normalized(path@),
{
    let n = path.unicode_len();
    if n > 0 && path.get_char(0) == '/' {
        let r = path.substring_char(1, n);
        assert(r@ =~= path@.drop_first());
        r
    } else {
        path
    }
}

/// The content type of the asset `path` with metadata `meta`.
fn content_type(path: &str, meta: &AssetMetadata) -> (r: String)
    ensures
        r@ == content_type_of(path@, meta@.mime_type),
{
    proof {
        reveal_strlit("index.html");
    }
    assert("index.html"@ =~= index_path());
    if same_text(path, "index.html") {
        String::from_str("text/html")
    } else {
        match &meta.mime_type {
            Some(m) => m.clone(),
            None => String::from_str("application/octet-stream"),
        }
    }
}

/// Answers for the asset `path` with content `data` and metadata `meta`.
fn serve(
    meta: &AssetMetadata,
    data: &Vec<u8>,
    path: &str,
    content_type: String,
    if_none_match: Option<&str>,
) -> (r: AssetResponse)
    ensures
        r@ == served(meta@, data@, path@, content_type@, opt_str(if_none_match)),
{
    if let Some(etag) = if_none_match {
        if meta.etag_matches(etag) {
            return AssetResponse::NotModified;
        }
    }
    let body = data.clone();
    assert(body@ =~= data@);
    let cache_control = String::from_str(cache_control_for(path));
    AssetResponse::Found { content_type, etag: meta.hash.quoted(), cache_control, body }
}

/// Answers a request for `request_path`: the asset stored there; else 404
/// inside `assets/`; else the entry document `index.html`, or 500 when the
/// store lacks it. An `If-None-Match` equal to the served asset's ETag gives
/// 304. A header value that is absent or unreadable is passed as `None`.
pub fn handle_spa_fallback_with_headers(
    assets: &WebAssets,
    cache: &mut MetadataCache,
    request_path: &str,
    if_none_match: Option<&str>,
) -> (r: AssetResponse)
    ensures
        r@ == response_for(assets@, old(cache)@, request_path@, opt_str(if_none_match)),
        final(cache)@ == cache_after_request(assets@, old(cache)@, request_path@),
{
    proof {
        reveal_strlit("assets/");
        reveal_strlit("index.html");
    }
    let path = strip_leading_slash(request_path);
    match assets.get(path) {
        Some(data) => {
            let meta = get_asset_metadata_cached(cache, path, data.as_slice());
            let content_type = content_type(path, &meta);
            serve(&meta, data, path, content_type, if_none_match)
        },
        None => {
            assert("assets/"@ =~= asset_prefix());
            assert("index.html"@ =~= index_path());
            if starts_with(path, "assets/") {
                return AssetResponse::AssetNotFound;
            }
            match assets.get("index.html") {
                Some(data) => {
                    let meta = get_asset_metadata_cached(cache, "index.html", data.as_slice());
                    serve(&meta, data, "index.html", String::from_str("text/html"), if_none_match)
                },
                None => AssetResponse::MissingEntryDocument,
            }
        },
    }
}

/// Answers a request from the cache as it stands, without changing it, as
/// `handle_spa_fallback_with_headers` would. `None` when that answer needs
/// metadata that the cache does not hold yet.
pub fn respond_from_cache(
    assets: &WebAssets,
    cache: &MetadataCache,
    request_path: &str,
    if_none_match: Option<&str>,
) -> (r: Option<AssetResponse>)
    ensures
        match r {
            Some(x) => x@ == response_for(assets@, cache@, request_path@, opt_str(if_none_match))
                && cache_after_request(assets@, cache@, request_path@) == cache@,
            None => cache_after_request(assets@, cache@, request_path@) != cache@,
        },
{
    proof {
        reveal_strlit("assets/");
        reveal_strlit("index.html");
    }
    let path = strip_leading_slash(request_path);
    match assets.get(path) {
        Some(data) => match cache.lookup(path) {
            Some(meta) => {
                let content_type = content_type(path, &meta);
                Some(serve(&meta, data, path, content_type, if_none_match))
            },
            None => {
                assert(cache_after_request(assets@, cache@, request_path@).contains_key(path@));
                None
            },
        },
        None => {
            assert("assets/"@ =~= asset_prefix());
            assert("index.html"@ =~= index_path());
            if starts_with(path, "assets/") {
                return Some(AssetResponse::AssetNotFound);
            }
            match assets.get("index.html") {
                Some(data) => match cache.lookup("index.html") {
                    Some(meta) => Some(
                        serve(&meta, data, "index.html", String::from_str("text/html"), if_none_match),
                    ),
                    None => {
                        assert(cache_after_request(assets@, cache@, request_path@).contains_key(
                            index_path(),
                        ));
                        None
                    },
                },
                None => Some(AssetResponse::MissingEntryDocument),
            }
        },
    }
}

/// The cache after the requests for `paths`, in order.
pub open spec fn cache_after_requests(
    store: Map<Seq<char>, Seq<u8>>,
    cache: Map<Seq<char>, MetadataView>,
    paths: Seq<Seq<char>>,
) -> Map<Seq<char>, MetadataView>
    decreases paths.len(),
{
    if paths.len() == 0 {
        cache
    } else {
        cache_after_requests(store, cache_after_request(store, cache, paths[0]), paths.drop_first())
    }
}

/// Requests only add to the cache: every entry stays, with its value.
pub proof fn requests_keep_cached_entries(
    store: Map<Seq<char>, Seq<u8>>,
    cache: Map<Seq<char>, MetadataView>,
    paths: Seq<Seq<char>>,
)
    ensures
        cache.submap_of(cache_after_requests(store, cache, paths)),
    decreases paths.len(),
{
    if paths.len() > 0 {
        let next = cache_after_request(store, cache, paths[0]);
        requests_keep_cached_entries(store, next, paths.drop_first());
        let last = cache_after_requests(store, next, paths.drop_first());
        assert forall|k: Seq<char>| #[trigger] cache.contains_key(k) implies last.contains_key(k)
            && last[k] == cache[k] by {
            assert(next.contains_key(k) && next[k] == cache[k]);
        }
    }
}

/// Once a request has been served with an ETag, a request for the same path
/// with `If-None-Match` set to that ETag gives 304, and leaves the cache as it
/// is, after any sequence of other requests in between, these included: the
/// ETag of a path does not change.
pub proof fn conditional_request_is_idempotent(
    store: Map<Seq<char>, Seq<u8>>,
    cache: Map<Seq<char>, MetadataView>,
    request_path: Seq<char>,
    inm: Option<Seq<char>>,
    between: Seq<Seq<char>>,
)
    requires
        response_for(store, cache, request_path, inm) is Found,
    ensures
        ({
            let etag = response_for(store, cache, request_path, inm)->Found_etag;
            let later = cache_after_requests(
                store,
                cache_after_request(store, cache, request_path),
                between,
            );
            &&& response_for(store, later, request_path, Some(etag)) == ResponseView::NotModified
            &&& cache_after_request(store, later, request_path) == later
        }),
{
    let after = cache_after_request(store, cache, request_path);
    requests_keep_cached_entries(store, after, between);
    let later = cache_after_requests(store, after, between);
    let p = normalized(request_path);
    let k = if store.contains_key(p) {
        p
    } else {
        index_path()
    };
    assert(after.contains_key(k));
    assert(later.contains_key(k) && later[k] == after[k]);
}

/// A miss under `assets/` is a 404, never the entry document.
pub proof fn asset_namespace_is_closed(
    store: Map<Seq<char>, Seq<u8>>,
    cache: Map<Seq<char>, MetadataView>,
    request_path: Seq<char>,
    inm: Option<Seq<char>>,
)
    requires
        has_prefix(normalized(request_path), asset_prefix()),
        !store.contains_key(normalized(request_path)),
    ensures
        response_for(store, cache, request_path, inm) == ResponseView::AssetNotFound,
{
}

/// A miss outside `assets/` answers exactly as a direct request for
/// `index.html` with the same `If-None-Match` does, and has the same effect on
/// the cache.
pub proof fn client_route_serves_entry_document(
    store: Map<Seq<char>, Seq<u8>>,
    cache: Map<Seq<char>, MetadataView>,
    request_path: Seq<char>,
    inm: Option<Seq<char>>,
)
    requires
        !store.contains_key(normalized(request_path)),
        !has_prefix(normalized(request_path), asset_prefix()),
        store.contains_key(index_path()),
    ensures
        response_for(store, cache, request_path, inm) == response_for(
            store,
            cache,
            index_path(),
            inm,
        ),
        cache_after_request(store, cache, request_path) == cache_after_request(
            store,
            cache,
            index_path(),
        ),
{
    assert(normalized(index_path()) == index_path());
}

/// When the store lacks `index.html`, a miss outside `assets/` is a 500,
/// not a 404.
pub proof fn missing_entry_document_is_server_error(
    store: Map<Seq<char>, Seq<u8>>,
    cache: Map<Seq<char>, MetadataView>,
    request_path: Seq<char>,
    inm: Option<Seq<char>>,
)
    requires
        !store.contains_key(index_path()),
        !store.contains_key(normalized(request_path)),
        !has_prefix(normalized(request_path), asset_prefix()),
    ensures
        response_for(store, cache, request_path, inm) == ResponseView::MissingEntryDocument,
{
}

} // verus!

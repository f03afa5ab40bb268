use when_works::assets::{MetadataCache, WebAssets};
use when_works::router::{handle_spa_fallback_with_headers, respond_from_cache, AssetResponse};

fn store_with_index() -> WebAssets {
    let mut store = WebAssets::new();
    store.insert("index.html".to_string(), b"<!doctype html><p>app</p>".to_vec());
    store.insert("assets/app.a1b2.js".to_string(), b"console.log(1)".to_vec());
    store.insert("styles/main.css".to_string(), b"p{}".to_vec());
    store.insert("data.unknownext".to_string(), b"??".to_vec());
    store
}

fn found(r: &AssetResponse) -> (String, String, String, Vec<u8>) {
    match r {
        AssetResponse::Found { content_type, etag, cache_control, body } => {
            (content_type.clone(), etag.clone(), cache_control.clone(), body.clone())
        }
        other => panic!("expected 200, got {:?}", other),
    }
}

#[test]
fn serves_asset_with_headers() {
    let store = store_with_index();
    let mut cache = MetadataCache::new();
    let r = handle_spa_fallback_with_headers(&store, &mut cache, "/assets/app.a1b2.js", None);
    assert_eq!(r.status(), 200);
    let (_, etag, cache_control, body) = found(&r);
    assert_eq!(cache_control, "public, max-age=31536000, immutable");
    assert_eq!(body, b"console.log(1)".to_vec());
    assert!(etag.starts_with('"') && etag.ends_with('"') && etag.len() > 2);
    assert!(etag[1..etag.len() - 1].chars().all(|c| c.is_ascii_digit()));
}

#[test]
fn css_content_type_and_policy() {
    let store = store_with_index();
    let mut cache = MetadataCache::new();
    let r = handle_spa_fallback_with_headers(&store, &mut cache, "/styles/main.css", None);
    let (content_type, _, cache_control, _) = found(&r);
    assert_eq!(content_type, "text/css");
    assert_eq!(cache_control, "public, max-age=86400");
}

#[test]
fn unknown_mime_falls_back_to_octet_stream() {
    let store = store_with_index();
    let mut cache = MetadataCache::new();
    let r = handle_spa_fallback_with_headers(&store, &mut cache, "/data.unknownext", None);
    let (content_type, _, cache_control, _) = found(&r);
    assert_eq!(content_type, "application/octet-stream");
    assert_eq!(cache_control, "public, max-age=3600");
}

#[test]
fn conditional_request_gives_not_modified_repeatably() {
    let store = store_with_index();
    let mut cache = MetadataCache::new();
    let first = handle_spa_fallback_with_headers(&store, &mut cache, "/assets/app.a1b2.js", None);
    let (_, etag, _, _) = found(&first);
    for _ in 0..3 {
        let again =
            handle_spa_fallback_with_headers(&store, &mut cache, "/assets/app.a1b2.js", Some(&etag));
        assert_eq!(again.status(), 304);
        assert!(matches!(again, AssetResponse::NotModified));
        let other = handle_spa_fallback_with_headers(&store, &mut cache, "/styles/main.css", None);
        assert_eq!(other.status(), 200);
    }
    assert_eq!(cache.computed(), 2);
}

#[test]
fn stale_or_malformed_etag_gives_full_response() {
    let store = store_with_index();
    let mut cache = MetadataCache::new();
    let r = handle_spa_fallback_with_headers(&store, &mut cache, "/index.html", Some("\"1\""));
    assert_eq!(r.status(), 200);
    let r = handle_spa_fallback_with_headers(&store, &mut cache, "/index.html", Some("garbage"));
    assert_eq!(r.status(), 200);
}

#[test]
fn miss_in_asset_namespace_is_not_found() {
    let store = store_with_index();
    let mut cache = MetadataCache::new();
    let r = handle_spa_fallback_with_headers(&store, &mut cache, "/assets/missing.js", None);
    assert_eq!(r.status(), 404);
    assert!(matches!(r, AssetResponse::AssetNotFound));
    assert_eq!(cache.computed(), 0);
}

#[test]
fn client_route_serves_index() {
    let store = store_with_index();
    let mut cache = MetadataCache::new();
    let direct = handle_spa_fallback_with_headers(&store, &mut cache, "/index.html", None);
    let route = handle_spa_fallback_with_headers(&store, &mut cache, "/dashboard/42", None);
    let (ct_direct, etag_direct, cc_direct, body_direct) = found(&direct);
    let (ct_route, etag_route, cc_route, body_route) = found(&route);
    assert_eq!(ct_route, "text/html");
    assert_eq!(ct_direct, ct_route);
    assert_eq!(etag_direct, etag_route);
    assert_eq!(cc_direct, "public, max-age=300");
    assert_eq!(cc_direct, cc_route);
    assert_eq!(body_direct, body_route);
    let cond =
        handle_spa_fallback_with_headers(&store, &mut cache, "/dashboard/42", Some(&etag_direct));
    assert_eq!(cond.status(), 304);
}

#[test]
fn missing_index_is_server_error() {
    let mut store = WebAssets::new();
    store.insert("assets/app.js".to_string(), b"js".to_vec());
    let mut cache = MetadataCache::new();
    let r = handle_spa_fallback_with_headers(&store, &mut cache, "/dashboard/42", None);
    assert_eq!(r.status(), 500);
    assert!(matches!(r, AssetResponse::MissingEntryDocument));
    let r = handle_spa_fallback_with_headers(&store, &mut cache, "/assets/other.js", None);
    assert_eq!(r.status(), 404);
}

#[test]
fn only_one_leading_slash_is_stripped() {
    let store = store_with_index();
    let mut cache = MetadataCache::new();
    let r = handle_spa_fallback_with_headers(&store, &mut cache, "index.html", None);
    assert_eq!(found(&r).2, "public, max-age=300");
    let r = handle_spa_fallback_with_headers(&store, &mut cache, "//assets/missing.js", None);
    assert_eq!(r.status(), 200);
}

#[test]
fn read_only_answer_needs_cached_metadata() {
    let store = store_with_index();
    let mut cache = MetadataCache::new();
    assert!(respond_from_cache(&store, &cache, "/styles/main.css", None).is_none());
    assert!(respond_from_cache(&store, &cache, "/dashboard/42", None).is_none());
    let full = handle_spa_fallback_with_headers(&store, &mut cache, "/styles/main.css", None);
    let quick = respond_from_cache(&store, &cache, "/styles/main.css", None).unwrap();
    assert_eq!(found(&full), found(&quick));
    let etag = found(&full).1;
    let cond = respond_from_cache(&store, &cache, "/styles/main.css", Some(&etag)).unwrap();
    assert_eq!(cond.status(), 304);
    assert_eq!(cache.computed(), 1);
}

#[test]
fn read_only_answer_for_misses_and_missing_index() {
    let store = store_with_index();
    let cache = MetadataCache::new();
    let r = respond_from_cache(&store, &cache, "/assets/missing.js", None).unwrap();
    assert_eq!(r.status(), 404);
    let empty = WebAssets::new();
    let r = respond_from_cache(&empty, &cache, "/dashboard", None).unwrap();
    assert_eq!(r.status(), 500);
}

#[test]
fn entry_document_is_always_html() {
    let store = store_with_index();
    let mut cache = MetadataCache::new();
    let r = handle_spa_fallback_with_headers(&store, &mut cache, "/index.html", None);
    assert_eq!(found(&r).0, "text/html");
}

#[test]
fn dot_file_stylesheet_is_cached_for_a_day() {
    let mut store = store_with_index();
    store.insert(".css".to_string(), b"p{}".to_vec());
    let mut cache = MetadataCache::new();
    let r = handle_spa_fallback_with_headers(&store, &mut cache, "/.css", None);
    assert_eq!(found(&r).2, "public, max-age=86400");
}

use when_works::assets::{
    compute_metadata, get_asset_metadata_cached, AssetHash, AssetMetadata, MetadataCache,
    WebAssets,
};

#[test]
fn quoted_wraps_decimal_in_quotes() {
    assert_eq!(AssetHash(42).quoted(), "\"42\"");
    assert_eq!(AssetHash(0).quoted(), "\"0\"");
    assert_eq!(AssetHash(u64::MAX).quoted(), "\"18446744073709551615\"");
}

#[test]
fn etag_matches_exact_quoted_hash_only() {
    let meta = AssetMetadata { mime_type: None, hash: AssetHash(1234) };
    assert!(meta.etag_matches("\"1234\""));
    assert!(!meta.etag_matches("1234"));
    assert!(!meta.etag_matches("W/\"1234\""));
    assert!(!meta.etag_matches("*"));
    assert!(!meta.etag_matches("\"12345\""));
    assert!(!meta.etag_matches(""));
}

#[test]
fn metadata_is_deterministic() {
    let a = compute_metadata("styles/main.css", b"body { color: red }");
    let b = compute_metadata("styles/main.css", b"body { color: red }");
    assert_eq!(a.mime_type, b.mime_type);
    assert_eq!(a.hash, b.hash);
    assert_eq!(a.mime_type.as_deref(), Some("text/css"));
}

#[test]
fn hash_depends_on_content() {
    let a = compute_metadata("a.txt", b"first");
    let b = compute_metadata("a.txt", b"second");
    assert_ne!(a.hash, b.hash);
}

#[test]
fn unknown_extension_has_no_mime_type() {
    let meta = compute_metadata("blob.notarealextension", b"x");
    assert_eq!(meta.mime_type, None);
    let meta = compute_metadata("README", b"x");
    assert_eq!(meta.mime_type, None);
}

#[test]
fn cache_returns_first_metadata_without_recomputing() {
    let mut cache = MetadataCache::new();
    assert_eq!(cache.computed(), 0);
    let first = get_asset_metadata_cached(&mut cache, "app.js", b"one");
    assert_eq!(cache.computed(), 1);
    for _ in 0..8 {
        let again = get_asset_metadata_cached(&mut cache, "app.js", b"two");
        assert_eq!(again.hash, first.hash);
        assert_eq!(again.mime_type, first.mime_type);
        assert_eq!(cache.computed(), 1);
    }
    let other = get_asset_metadata_cached(&mut cache, "other.js", b"two");
    assert_eq!(cache.computed(), 2);
    assert_ne!(other.hash, first.hash);
}

#[test]
fn store_get_and_replace() {
    let mut store = WebAssets::new();
    assert!(store.get("index.html").is_none());
    store.insert("index.html".to_string(), b"<html>a</html>".to_vec());
    store.insert("assets/app.js".to_string(), b"js".to_vec());
    assert_eq!(store.get("index.html").unwrap().as_slice(), b"<html>a</html>");
    store.insert("index.html".to_string(), b"<html>b</html>".to_vec());
    assert_eq!(store.get("index.html").unwrap().as_slice(), b"<html>b</html>");
    assert_eq!(store.get("assets/app.js").unwrap().as_slice(), b"js");
    assert!(store.get("assets/app").is_none());
    assert!(store.get("/index.html").is_none());
}

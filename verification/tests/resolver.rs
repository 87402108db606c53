use discord_social_rpc::external_assets::{
    asset_path_from_response, authorization_header, external_assets_request, external_assets_url,
    ResolveStep,
};
use discord_social_rpc::ExternalAssetsResolver;

fn done(step: ResolveStep) -> Option<String> {
    match step {
        ResolveStep::Done(r) => r,
        ResolveStep::Fetch => panic!("expected an answer without a fetch"),
    }
}

#[test]
fn empty_and_media_keys_need_no_fetch() {
    let mut r = ExternalAssetsResolver::default();
    assert_eq!(done(r.resolve("")), None);
    assert_eq!(done(r.resolve("mp:external/abc")), Some("mp:external/abc".to_string()));
    assert_eq!(r.len(), 0);
}

#[test]
fn fetched_path_is_then_served_from_cache() {
    let mut r = ExternalAssetsResolver::new(4, 2);
    assert!(matches!(r.resolve("https://e.com/a.png"), ResolveStep::Fetch));
    let got = r.complete("https://e.com/a.png", Some("external/aaa".to_string()));
    assert_eq!(got.as_deref(), Some("mp:external/aaa"));
    assert_eq!(done(r.resolve("https://e.com/a.png")).as_deref(), Some("mp:external/aaa"));
}

#[test]
fn failed_fetch_caches_nothing() {
    let mut r = ExternalAssetsResolver::new(4, 2);
    assert_eq!(r.complete("https://e.com/a.png", None), None);
    assert_eq!(r.len(), 0);
    assert!(matches!(r.resolve("https://e.com/a.png"), ResolveStep::Fetch));
}

#[test]
fn cache_never_exceeds_capacity_and_evicts_least_recent() {
    let mut r = ExternalAssetsResolver::new(3, 1);
    r.complete("u1", Some("p1".to_string()));
    r.complete("u2", Some("p2".to_string()));
    r.complete("u3", Some("p3".to_string()));
    // a hit makes u1 the most recently used
    assert_eq!(done(r.resolve("u1")).as_deref(), Some("mp:p1"));
    r.complete("u4", Some("p4".to_string()));
    assert_eq!(r.len(), 3);
    assert_eq!(r.cached("u2"), None);
    assert_eq!(r.cached("u1").as_deref(), Some("mp:p1"));
    assert_eq!(r.cached("u3").as_deref(), Some("mp:p3"));
    assert_eq!(r.cached("u4").as_deref(), Some("mp:p4"));
}

#[test]
fn batch_eviction_keeps_the_new_entry() {
    let mut r = ExternalAssetsResolver::new(2, 5);
    r.complete("a", Some("1".to_string()));
    r.complete("b", Some("2".to_string()));
    r.complete("c", Some("3".to_string()));
    assert_eq!(r.len(), 1);
    assert_eq!(r.cached("c").as_deref(), Some("mp:3"));
}

#[test]
fn default_cache_holds_at_most_128() {
    let mut r = ExternalAssetsResolver::default();
    for i in 0..300 {
        let url = format!("https://e.com/{i}.png");
        r.complete(&url, Some(format!("external/{i}")));
        assert!(r.len() <= 128);
    }
}

#[test]
fn zero_batch_never_evicts() {
    let mut r = ExternalAssetsResolver::new(1, 0);
    r.complete("a", Some("1".to_string()));
    r.complete("b", Some("2".to_string()));
    assert_eq!(r.len(), 2);
}

#[test]
fn external_assets_request_parts() {
    assert_eq!(
        external_assets_url("42"),
        "https://discord.com/api/v9/applications/42/external-assets"
    );
    assert_eq!(authorization_header("tok"), "Bearer tok");
    let body = external_assets_request("https://e.com/x.png");
    assert_eq!(body.urls, vec!["https://e.com/x.png".to_string()]);
}

#[test]
fn asset_path_read_from_response() {
    let ok = r#"[{"url":"https://e.com/x.png","external_asset_path":"external/abc/x.png"}]"#;
    assert_eq!(asset_path_from_response(true, ok).as_deref(), Some("external/abc/x.png"));
    assert_eq!(asset_path_from_response(false, ok), None);
    assert_eq!(asset_path_from_response(true, ""), None);
    assert_eq!(asset_path_from_response(true, "not json"), None);
    assert_eq!(asset_path_from_response(true, r#"{"external_asset_path":"x"}"#), None);
    assert_eq!(asset_path_from_response(true, r#"[{"external_asset_path":3}]"#), None);
    assert_eq!(asset_path_from_response(true, "[]"), None);
}

#[test]
fn default_resolver_evicts_a_clamped_batch() {
    let mut r = ExternalAssetsResolver::default();
    for i in 0..128 {
        let url = format!("https://e.com/{i}.png");
        r.complete(&url, Some(format!("external/{i}")));
    }
    assert_eq!(r.len(), 128);
    r.complete("https://e.com/128.png", Some("external/128".to_string()));
    assert_eq!(r.len(), 1);
    assert_eq!(r.cached("https://e.com/0.png"), None);
    assert_eq!(r.cached("https://e.com/127.png"), None);
    assert_eq!(r.cached("https://e.com/128.png").as_deref(), Some("mp:external/128"));
}

#[test]
fn storing_a_cached_url_keeps_its_value() {
    let mut r = ExternalAssetsResolver::new(4, 2);
    r.complete("https://e.com/a.png", Some("external/first".to_string()));
    let got = r.complete("https://e.com/a.png", Some("external/second".to_string()));
    assert_eq!(got.as_deref(), Some("mp:external/second"));
    assert_eq!(r.cached("https://e.com/a.png").as_deref(), Some("mp:external/first"));
    assert_eq!(r.len(), 1);
}

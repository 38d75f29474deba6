use ic_static_assets::config::{
    resolve_asset_configs, select_rule, rule_matches, ConfigRule, EncodingKind, PatternMatcher,
};

fn resolved() -> Vec<ConfigRule> {
    resolve_asset_configs(&"aaaaa-aa".to_string())
}

#[test]
fn resolver_produces_the_fixed_rule_list() {
    let rules = resolved();
    assert_eq!(rules.len(), 10);
    match &rules[0] {
        ConfigRule::File { path, content_type, headers, fallback_for, aliased_by, encodings } => {
            assert_eq!(path, "index.html");
            assert_eq!(content_type.as_deref(), Some("text/html"));
            assert_eq!(fallback_for.len(), 1);
            assert_eq!(fallback_for[0].scope, "/");
            assert_eq!(fallback_for[0].status_code, Some(200));
            assert_eq!(aliased_by, &vec!["/".to_string()]);
            assert_eq!(encodings.len(), 2);
            // the dynamic session cookie is injected only here
            assert!(headers.iter().any(|h| h.0 == "set-cookie"
                && h.1 == "canisterId=aaaaa-aa"));
            assert!(headers.iter().any(|h| h.0 == "cache-control"
                && h.1 == "public, no-cache, no-store"));
        },
        ConfigRule::Pattern { .. } => panic!("root rule must be an exact rule"),
    }
    match &rules[1] {
        ConfigRule::Pattern { matcher, content_type, headers, encodings } => {
            match matcher {
                PatternMatcher::Suffix { suffix } => assert_eq!(suffix, ".js"),
                PatternMatcher::Prefix { .. } => panic!("script rule must match a suffix"),
            }
            assert_eq!(content_type.as_deref(), Some("text/javascript"));
            assert!(headers.iter().any(|h| h.0 == "cache-control"
                && h.1 == "public, max-age=31536000, immutable"));
            assert_eq!(encodings.len(), 2);
        },
        ConfigRule::File { .. } => panic!("script rule must be a pattern rule"),
    }
    match &rules[9] {
        ConfigRule::File { path, content_type, fallback_for, aliased_by, encodings, .. } => {
            assert_eq!(path, "/.well-known/ii-alternative-origins");
            assert_eq!(content_type.as_deref(), Some("application/json"));
            assert!(fallback_for.is_empty());
            assert!(aliased_by.is_empty());
            assert!(encodings.is_empty());
        },
        ConfigRule::Pattern { .. } => panic!("identity-linkage rule must be exact"),
    }
}

#[test]
fn every_cacheable_pattern_rule_advertises_brotli_and_gzip() {
    // The suffix rules (indices 1 through 7) are all cacheable-forever and
    // advertise brotli then gzip; the well-known rules advertise none.
    let rules = resolved();
    for rule in rules.iter().take(8).skip(1) {
        match rule {
            ConfigRule::Pattern { encodings, .. } => {
                assert_eq!(encodings, &vec![EncodingKind::Brotli, EncodingKind::Gzip]);
            },
            ConfigRule::File { .. } => panic!("suffix rules must be pattern rules"),
        }
    }
    match &rules[8] {
        ConfigRule::Pattern { encodings, .. } => assert!(encodings.is_empty()),
        ConfigRule::File { .. } => panic!("well-known rule must be a pattern rule"),
    }
}

#[test]
fn no_session_cookie_outside_the_root_rule() {
    let rules = resolved();
    for rule in rules.iter().skip(1) {
        let headers = match rule {
            ConfigRule::File { headers, .. } => headers,
            ConfigRule::Pattern { headers, .. } => headers,
        };
        assert!(headers.iter().all(|h| h.0 != "set-cookie"));
    }
}

#[test]
fn first_matching_rule_governs_each_asset() {
    let rules = resolved();
    assert_eq!(select_rule(&rules, &"index.html".to_string()), Some(0));
    assert_eq!(select_rule(&rules, &"app.js".to_string()), Some(1));
    assert_eq!(select_rule(&rules, &"css/style.css".to_string()), Some(2));
    assert_eq!(select_rule(&rules, &"logo.png".to_string()), Some(3));
    assert_eq!(select_rule(&rules, &"/.well-known/ii-alternative-origins".to_string()), Some(8));
    assert_eq!(select_rule(&rules, &"unmatched.xyz".to_string()), None);
}

#[test]
fn declaration_order_is_authoritative_over_specificity() {
    // A pattern rule declared before a more specific exact rule still wins.
    let pattern_rule = ConfigRule::Pattern {
        matcher: PatternMatcher::Suffix { suffix: ".css".to_string() },
        content_type: Some("text/css".to_string()),
        headers: vec![],
        encodings: vec![],
    };
    let exact_rule = ConfigRule::File {
        path: "style.css".to_string(),
        content_type: Some("text/css".to_string()),
        headers: vec![],
        fallback_for: vec![],
        aliased_by: vec![],
        encodings: vec![],
    };
    let path = "style.css".to_string();
    assert!(rule_matches(&pattern_rule, &path));
    assert!(rule_matches(&exact_rule, &path));
    let rules = vec![pattern_rule, exact_rule];
    assert_eq!(select_rule(&rules, &path), Some(0));
}

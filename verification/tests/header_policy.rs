use ic_static_assets::headers::{get_asset_headers, well_known_asset_headers};

fn extra() -> Vec<(String, String)> {
    vec![
        ("cache-control".to_string(), "public, max-age=31536000, immutable".to_string()),
        ("x-custom".to_string(), "1".to_string()),
    ]
}

#[test]
fn header_policy_is_stable() {
    // Two calls on identical extra headers yield byte-identical output.
    let first = get_asset_headers(extra());
    let second = get_asset_headers(extra());
    assert_eq!(first, second);
}

#[test]
fn baseline_comes_first_then_extras_in_order() {
    let headers = get_asset_headers(extra());
    assert_eq!(headers.len(), 9);
    assert_eq!(headers[0].0, "strict-transport-security");
    assert_eq!(headers[0].1, "max-age=31536000; includeSubDomains");
    assert_eq!(headers[1].0, "x-frame-options");
    assert_eq!(headers[1].1, "DENY");
    assert_eq!(headers[2].0, "x-content-type-options");
    assert_eq!(headers[6].0, "x-xss-protection");
    assert_eq!(headers[7].0, "cache-control");
    assert_eq!(headers[7].1, "public, max-age=31536000, immutable");
    assert_eq!(headers[8].0, "x-custom");
}

#[test]
fn duplicate_names_are_kept_not_merged() {
    let headers = get_asset_headers(vec![
        ("x-frame-options".to_string(), "SAMEORIGIN".to_string()),
    ]);
    let frame_options: Vec<&(String, String)> =
        headers.iter().filter(|h| h.0 == "x-frame-options").collect();
    assert_eq!(frame_options.len(), 2);
    assert_eq!(frame_options[0].1, "DENY");
    assert_eq!(frame_options[1].1, "SAMEORIGIN");
}

#[test]
fn well_known_headers_are_uncacheable_and_cross_origin_open() {
    let headers = well_known_asset_headers();
    assert_eq!(headers.len(), 9);
    assert_eq!(headers[7], ("cache-control".to_string(), "public, no-cache, no-store".to_string()));
    assert_eq!(headers[8], ("access-control-allow-origin".to_string(), "*".to_string()));
}
